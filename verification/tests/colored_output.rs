use motus::{CrackTimes, EntropyEstimate, PasswordStrength, SecurityAnalysis};
use term_table::TableStyle;

fn analysis_of(score: u8) -> SecurityAnalysis {
    let estimate = EntropyEstimate {
        score,
        guesses_log10: "10".to_string(),
        crack_times: CrackTimes {
            online_throttling_100_per_hour: "centuries".to_string(),
            online_no_throttling_10_per_second: "31 years".to_string(),
            offline_slow_hashing_1e4_per_second: "11 days".to_string(),
            offline_fast_hashing_1e10_per_second: "1 second".to_string(),
        },
    };
    SecurityAnalysis::from_estimate("mH)vj1Q^7B6B", estimate).unwrap()
}

#[test]
fn levels_are_written_in_their_colours() {
    colored::control::set_override(true);
    assert_eq!(PasswordStrength::VeryWeak.to_colored_string(), "\x1b[31mvery week\x1b[0m");
    assert_eq!(PasswordStrength::Weak.to_colored_string(), "\x1b[91mweek\x1b[0m");
    assert_eq!(PasswordStrength::Reasonable.to_colored_string(), "\x1b[33mreasonable\x1b[0m");
    assert_eq!(PasswordStrength::Strong.to_colored_string(), "\x1b[92mstrong\x1b[0m");
    assert_eq!(PasswordStrength::VeryStrong.to_colored_string(), "\x1b[32mvery strong\x1b[0m");
}

#[test]
fn the_password_box_has_a_bold_heading() {
    colored::control::set_override(true);
    let text = analysis_of(3).display_password_table(TableStyle::simple(), 80);
    let expected = "\
+--------------------+
| \x1b[1mGenerated Password\x1b[0m |
+--------------------+
| mH)vj1Q^7B6B       |
+--------------------+
";
    assert_eq!(text, expected);
}

#[test]
fn the_strength_box_has_bold_headings_and_a_coloured_level() {
    colored::control::set_override(true);
    let text = analysis_of(3).display_analysis_table(TableStyle::extended(), 80);
    let expected = "\
╔═════════════════════╗
║ Security Analysis   ║
╠══════════╦══════════╣
║ \x1b[1mStrength\x1b[0m ║ \x1b[92mstrong\x1b[0m   ║
╠══════════╬══════════╣
║ \x1b[1mGuesses\x1b[0m  ║ 10^10    ║
╚══════════╩══════════╝
";
    assert_eq!(text, expected);
}

#[test]
fn the_crack_times_box_has_bold_headings() {
    colored::control::set_override(true);
    let text = analysis_of(3).display_crack_times_table(TableStyle::simple(), 80);
    let expected = "\
+-----------------------------------+
| Security Analysis                 |
+-----------------------+-----------+
| \x1b[1m100 attempts/hour\x1b[0m     | centuries |
+-----------------------+-----------+
| \x1b[1m10 attempts/second\x1b[0m    | 31 years  |
+-----------------------+-----------+
| \x1b[1m10^4 attempts/second\x1b[0m  | 11 days   |
+-----------------------+-----------+
| \x1b[1m10^10 attempts/second\x1b[0m | 1 second  |
+-----------------------+-----------+
";
    assert_eq!(text, expected);
}
