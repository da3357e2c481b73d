use motus::analysis::StructuredAnalysis;
use motus::output::StructuredOutput;
use motus::{
    pin_password, AnalysisError, CrackTimes, EntropyEstimate, PasswordKind, PasswordOutput,
    PasswordStrength, RandomSource, SecurityAnalysis,
};
use serde_json::Value;

fn estimate(score: u8, guesses_log10: f64) -> EntropyEstimate {
    EntropyEstimate {
        score,
        guesses_log10: format!("{:.0}", guesses_log10),
        crack_times: CrackTimes {
            online_throttling_100_per_hour: "centuries".to_string(),
            online_no_throttling_10_per_second: "12 years".to_string(),
            offline_slow_hashing_1e4_per_second: "4 days".to_string(),
            offline_fast_hashing_1e10_per_second: "less than a second".to_string(),
        },
    }
}

fn to_json(fields: &StructuredAnalysis) -> Value {
    let mut crack_times = serde_json::Map::new();
    for (name, time) in &fields.crack_times {
        crack_times.insert(name.clone(), Value::String(time.clone()));
    }
    let mut object = serde_json::Map::new();
    object.insert("strength".to_string(), Value::String(fields.strength.clone()));
    object.insert("guesses".to_string(), Value::String(fields.guesses.clone()));
    object.insert("crack_times".to_string(), Value::Object(crack_times));
    Value::Object(object)
}

fn output_to_json(fields: &StructuredOutput) -> Value {
    let mut object = serde_json::Map::new();
    object.insert("kind".to_string(), Value::String(fields.kind.clone()));
    object.insert("password".to_string(), Value::String(fields.password.clone()));
    if let Some(analysis) = &fields.analysis {
        object.insert("analysis".to_string(), to_json(analysis));
    }
    Value::Object(object)
}

#[test]
fn a_report_bundles_the_estimate() {
    let report = SecurityAnalysis::from_estimate("correct horse", estimate(3, 9.6)).unwrap();
    assert_eq!(report.password, "correct horse");
    assert_eq!(report.strength, PasswordStrength::Strong);
    assert_eq!(report.guesses, "10^10");
    assert_eq!(report.crack_times.online_throttling_100_per_hour, "centuries");
    assert_eq!(report.crack_times.online_no_throttling_10_per_second, "12 years");
    assert_eq!(report.crack_times.offline_slow_hashing_1e4_per_second, "4 days");
    assert_eq!(report.crack_times.offline_fast_hashing_1e10_per_second, "less than a second");
}

#[test]
fn the_guesses_figure_is_a_power_of_ten() {
    assert_eq!(SecurityAnalysis::from_estimate("a", estimate(0, 0.0)).unwrap().guesses, "10^0");
    assert_eq!(SecurityAnalysis::from_estimate("a", estimate(0, 2.4)).unwrap().guesses, "10^2");
    assert_eq!(SecurityAnalysis::from_estimate("a", estimate(4, 19.27)).unwrap().guesses, "10^19");
}

#[test]
fn every_score_in_range_is_reported() {
    let levels = [
        PasswordStrength::VeryWeak,
        PasswordStrength::Weak,
        PasswordStrength::Reasonable,
        PasswordStrength::Strong,
        PasswordStrength::VeryStrong,
    ];
    for score in 0..=4u8 {
        let report = SecurityAnalysis::from_estimate("secret", estimate(score, 5.0)).unwrap();
        assert_eq!(report.strength, levels[score as usize]);
    }
}

#[test]
fn a_score_out_of_range_is_refused() {
    assert_eq!(
        SecurityAnalysis::from_estimate("secret", estimate(5, 5.0)).err(),
        Some(AnalysisError::InvalidScore(5))
    );
    assert_eq!(
        SecurityAnalysis::from_estimate("secret", estimate(200, 5.0)).err(),
        Some(AnalysisError::InvalidScore(200))
    );
}

#[test]
fn an_empty_secret_is_refused_as_blank() {
    assert_eq!(SecurityAnalysis::new("").err(), Some(AnalysisError::BlankPassword));
}

#[test]
fn the_estimator_reports_on_a_common_password() {
    let report = SecurityAnalysis::new("password123").unwrap();
    assert_eq!(report.password, "password123");
    assert_eq!(report.strength, PasswordStrength::VeryWeak);
    assert_eq!(report.guesses, "10^3");
    assert_eq!(report.crack_times.online_throttling_100_per_hour, "5 hours");
    assert_eq!(report.crack_times.online_no_throttling_10_per_second, "59 seconds");
    assert_eq!(report.crack_times.offline_slow_hashing_1e4_per_second, "less than a second");
    assert_eq!(report.crack_times.offline_fast_hashing_1e10_per_second, "less than a second");
}

#[test]
fn the_estimator_reports_on_a_stronger_password() {
    let report = SecurityAnalysis::new("TestMeNow!").unwrap();
    assert_eq!(report.strength, PasswordStrength::Strong);
    assert_eq!(report.guesses, "10^9");
    assert_eq!(report.crack_times.online_throttling_100_per_hour, "centuries");
}

#[test]
fn the_guesses_figure_of_the_estimator_ends_in_digits() {
    for secret in ["1", "ab", "5564047", "mH)vj1Q^7B6B", "Tr0ub4dour&3", "zxcvbnm,./"] {
        let report = SecurityAnalysis::new(secret).unwrap();
        let exponent = report.guesses.strip_prefix("10^").unwrap();
        assert!(!exponent.is_empty());
        assert!(exponent.chars().all(|c| c.is_ascii_digit()));
    }
}

#[test]
fn secrets_are_analysed_up_to_a_length() {
    let limit = motus::analysis::max_analysed_chars();
    assert_eq!(limit, if usize::BITS >= 64 { 20 } else { 12 });
    let longest = "12".repeat(limit / 2);
    assert_eq!(longest.chars().count(), limit);
    assert!(SecurityAnalysis::new(&longest).is_ok());
    let letters = "é".repeat(limit);
    assert!(SecurityAnalysis::new(&letters).is_ok());
}

#[test]
fn a_longer_secret_is_refused_as_too_long() {
    let limit = motus::analysis::max_analysed_chars();
    let too_long = "1".repeat(limit + 1);
    assert_eq!(SecurityAnalysis::new(&too_long).err(), Some(AnalysisError::TooLong));
    assert_eq!(SecurityAnalysis::new(&"12".repeat(15)).err(), Some(AnalysisError::TooLong));
    assert_eq!(
        SecurityAnalysis::new("r0sebudmaelstrom11/20/91aaaa").err(),
        Some(AnalysisError::TooLong)
    );
    assert_eq!(
        PasswordOutput::new(PasswordKind::Pin, &too_long, true).err(),
        Some(AnalysisError::TooLong)
    );
    assert!(PasswordOutput::new(PasswordKind::Pin, &too_long, false).is_ok());
}

#[test]
fn a_generated_pin_can_be_analysed() {
    let mut rng = RandomSource::seeded(42);
    let pin = pin_password(&mut rng, 7);
    let report = SecurityAnalysis::new(&pin).unwrap();
    assert_eq!(report.password, "5564047");
    assert!(report.guesses.starts_with("10^"));
}

#[test]
fn the_structured_form_names_the_four_attackers() {
    let report = SecurityAnalysis::from_estimate("secret", estimate(2, 7.5)).unwrap();
    let fields = report.serialize();
    assert_eq!(fields.strength, "reasonable");
    assert_eq!(fields.guesses, "10^8");
    assert_eq!(
        fields.crack_times,
        vec![
            ("100/h".to_string(), "centuries".to_string()),
            ("10/s".to_string(), "12 years".to_string()),
            ("10^4/s".to_string(), "4 days".to_string()),
            ("10^10/s".to_string(), "less than a second".to_string()),
        ]
    );
}

#[test]
fn the_structured_form_reads_back_from_json() {
    for score in 0..=4u8 {
        let report = SecurityAnalysis::from_estimate("secret", estimate(score, 9.6)).unwrap();
        let text = serde_json::to_string(&to_json(&report.serialize())).unwrap();
        let back: Value = serde_json::from_str(&text).unwrap();
        assert_eq!(back["strength"].as_str(), Some(report.strength.to_string().as_str()));
        assert_eq!(back["guesses"].as_str(), Some("10^10"));
        assert_eq!(back["guesses"].as_str(), Some(report.guesses.as_str()));
        let times = back["crack_times"].as_object().unwrap();
        assert_eq!(times.len(), 4);
        assert_eq!(times["100/h"].as_str(), Some("centuries"));
        assert_eq!(times["10/s"].as_str(), Some("12 years"));
        assert_eq!(times["10^4/s"].as_str(), Some("4 days"));
        assert_eq!(times["10^10/s"].as_str(), Some("less than a second"));
    }
}

#[test]
fn structured_output_without_a_report_has_no_entry_for_it() {
    let output = PasswordOutput::new(PasswordKind::Pin, "5564047", false).unwrap();
    let fields = output.serialize();
    assert_eq!(fields.kind, "pin");
    assert_eq!(fields.password, "5564047");
    assert!(fields.analysis.is_none());
    let text = serde_json::to_string(&output_to_json(&fields)).unwrap();
    assert_eq!(text, r#"{"kind":"pin","password":"5564047"}"#);
}

#[test]
fn structured_output_with_a_report_holds_its_structured_form() {
    let output = PasswordOutput::new(PasswordKind::Pin, "password123", true).unwrap();
    let fields = output.serialize();
    assert_eq!(fields.kind, "pin");
    assert_eq!(fields.password, "password123");
    let text = serde_json::to_string(&output_to_json(&fields)).unwrap();
    let back: Value = serde_json::from_str(&text).unwrap();
    assert_eq!(back["kind"].as_str(), Some("pin"));
    assert_eq!(back["password"].as_str(), Some("password123"));
    assert_eq!(back["analysis"]["strength"].as_str(), Some("very week"));
    assert_eq!(back["analysis"]["guesses"].as_str(), Some("10^3"));
    assert_eq!(back["analysis"]["crack_times"]["100/h"].as_str(), Some("5 hours"));
    assert_eq!(back["analysis"]["crack_times"]["10/s"].as_str(), Some("59 seconds"));
    assert_eq!(back["analysis"]["crack_times"]["10^4/s"].as_str(), Some("less than a second"));
    assert_eq!(back["analysis"]["crack_times"]["10^10/s"].as_str(), Some("less than a second"));
}
