use colored::Colorize;
use motus::{
    CrackTimes, EntropyEstimate, PasswordKind, PasswordOutput, PasswordStrength, SecurityAnalysis,
};
use term_table::row::Row;
use term_table::table_cell::{Alignment, TableCell};
use term_table::{Table, TableStyle};

fn analysis_of(password: &str, score: u8) -> SecurityAnalysis {
    let estimate = EntropyEstimate {
        score,
        guesses_log10: "3".to_string(),
        crack_times: CrackTimes {
            online_throttling_100_per_hour: "5 hours".to_string(),
            online_no_throttling_10_per_second: "59 seconds".to_string(),
            offline_slow_hashing_1e4_per_second: "less than a second".to_string(),
            offline_fast_hashing_1e10_per_second: "less than a second".to_string(),
        },
    };
    SecurityAnalysis::from_estimate(password, estimate).unwrap()
}

const PASSWORD_BOX: &str = "\
+--------------------+
| Generated Password |
+--------------------+
| password123        |
+--------------------+
";

const ANALYSIS_BOX: &str = "\
+----------------------+
| Security Analysis    |
+----------+-----------+
| Strength | very week |
+----------+-----------+
| Guesses  | 10^3      |
+----------+-----------+
";

const CRACK_TIMES_BOX: &str = "\
+--------------------------------------------+
| Security Analysis                          |
+-----------------------+--------------------+
| 100 attempts/hour     | 5 hours            |
+-----------------------+--------------------+
| 10 attempts/second    | 59 seconds         |
+-----------------------+--------------------+
| 10^4 attempts/second  | less than a second |
+-----------------------+--------------------+
| 10^10 attempts/second | less than a second |
+-----------------------+--------------------+
";

#[test]
fn levels_are_written_bare_without_colours() {
    colored::control::set_override(false);
    assert_eq!(PasswordStrength::VeryWeak.to_colored_string(), "very week");
    assert_eq!(PasswordStrength::VeryStrong.to_colored_string(), "very strong");
}

#[test]
fn the_three_boxes_in_the_simple_style() {
    colored::control::set_override(false);
    let analysis = analysis_of("password123", 0);
    assert_eq!(analysis.display_password_table(TableStyle::simple(), 80), PASSWORD_BOX);
    assert_eq!(analysis.display_analysis_table(TableStyle::simple(), 80), ANALYSIS_BOX);
    assert_eq!(analysis.display_crack_times_table(TableStyle::simple(), 80), CRACK_TIMES_BOX);
}

#[test]
fn the_report_is_the_three_boxes_each_with_a_line_break() {
    colored::control::set_override(false);
    let analysis = analysis_of("password123", 0);
    let expected = format!("{PASSWORD_BOX}\n{ANALYSIS_BOX}\n{CRACK_TIMES_BOX}\n");
    assert_eq!(analysis.display_report(TableStyle::simple(), 80), expected);
}

#[test]
fn a_narrow_limit_wraps_the_cells() {
    colored::control::set_override(false);
    let analysis = analysis_of("password123", 0);
    let text = analysis.display_password_table(TableStyle::simple(), 8);
    let expected = "\
+--------+
| Genera |
| ted Pa |
| ssword |
+--------+
| passwo |
| rd123  |
+--------+
";
    assert_eq!(text, expected);
}

#[test]
fn the_strength_box_is_what_the_table_crate_draws() {
    colored::control::set_override(false);
    let analysis = analysis_of("Tr0ub4dour&3", 2);
    let mut table = Table::new();
    table.max_column_width = 40;
    table.style = TableStyle::rounded();
    table.add_row(Row::new(vec![TableCell::builder("Security Analysis")
        .col_span(2)
        .alignment(Alignment::Left)
        .build()]));
    table.add_row(Row::new(vec![
        TableCell::new("Strength".bold()),
        TableCell::new("reasonable".yellow()),
    ]));
    table.add_row(Row::new(vec![TableCell::new("Guesses".bold()), TableCell::new("10^3")]));
    assert_eq!(analysis.display_analysis_table(TableStyle::rounded(), 40), table.render());
}

#[test]
fn text_output_without_a_report_is_the_secret_on_a_line() {
    let output = PasswordOutput::new(PasswordKind::Pin, "5564047", false).unwrap();
    assert_eq!(output.kind, PasswordKind::Pin);
    assert_eq!(output.password, "5564047");
    assert!(output.analysis.is_none());
    assert_eq!(output.text(TableStyle::extended(), 80), "5564047\n");
}

#[test]
fn text_output_with_a_report_is_the_report() {
    colored::control::set_override(false);
    let output = PasswordOutput::new(PasswordKind::Pin, "password123", true).unwrap();
    let expected = format!("{PASSWORD_BOX}\n{ANALYSIS_BOX}\n{CRACK_TIMES_BOX}\n");
    assert_eq!(output.text(TableStyle::simple(), 80), expected);
}

#[test]
fn an_empty_secret_has_output_but_no_report() {
    assert!(PasswordOutput::new(PasswordKind::Pin, "", false).is_ok());
    assert_eq!(
        PasswordOutput::new(PasswordKind::Pin, "", true).err(),
        Some(motus::AnalysisError::BlankPassword)
    );
}

#[test]
fn the_kind_is_named_in_lower_case() {
    assert_eq!(PasswordKind::Pin.to_string(), "pin");
}
