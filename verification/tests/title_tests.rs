use web_ai_automation::arena::title::{detect_model, title_model, verify_direct_mode};

fn ok(s: &str) -> Result<String, String> {
    Ok(String::from(s))
}

#[test]
fn title_names_the_direct_mode_model() {
    assert_eq!(title_model(&ok("gemini-3-flash · Arena")), Some(String::from("gemini-3-flash")));
    assert_eq!(title_model(&ok("  gpt-5 · Arena  ")), Some(String::from("gpt-5")));
    assert_eq!(title_model(&ok("Arena")), None);
    assert_eq!(title_model(&ok(" · Arena")), None);
    assert_eq!(title_model(&ok("Battle · Arena")), None);
    assert_eq!(title_model(&ok("Side by Side · Arena")), None);
    assert_eq!(title_model(&Err(String::from("no chrome"))), None);
}

#[test]
fn direct_mode_unless_a_comparison_shows() {
    assert!(verify_direct_mode(&ok("Arena")));
    assert!(verify_direct_mode(&ok("gpt-5 · Arena")));
    assert!(!verify_direct_mode(&ok("Arena (Battle)")));
    assert!(!verify_direct_mode(&ok("SIDE-BY-SIDE | Arena")));
    assert!(!verify_direct_mode(&ok("Compare models")));
    assert!(!verify_direct_mode(&Err(String::new())));
}

#[test]
fn detected_model_is_remembered() {
    let mut last = None;
    assert_eq!(detect_model(&ok("Arena"), &mut last), None);
    assert_eq!(detect_model(&ok("o3 · Arena"), &mut last), Some(String::from("o3")));
    assert_eq!(last, Some(String::from("o3")));
    // A title without a model keeps the remembered one.
    assert_eq!(detect_model(&ok("Leaderboard"), &mut last), Some(String::from("o3")));
    assert_eq!(detect_model(&Err(String::from("x")), &mut last), Some(String::from("o3")));
    // Trailing spaces after the suffix defeat it here (no trim before stripping).
    assert_eq!(detect_model(&ok("o4 · Arena "), &mut last), Some(String::from("o3")));
}
