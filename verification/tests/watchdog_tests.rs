use web_ai_automation::recovery::Problem;
use web_ai_automation::watchdog::{
    check_all, ActiveSiteInvariant, BrowserForegroundInvariant, BrowserFullscreenInvariant, CheckKind, InvariantResult,
    PeriodicInvariant, UserActivityInvariant,
};

#[test]
fn foreground_invariant_checks_the_frontmost_app() {
    let inv = BrowserForegroundInvariant { expected_app_substr: "Chrome" };
    assert_eq!(inv.name(), "browser_foreground");
    assert!(matches!(inv.judge(Ok(String::from("Google Chrome"))), InvariantResult::Holds));
    match inv.judge(Ok(String::from("Finder"))) {
        InvariantResult::Violated(Problem::BrowserNotForeground { seen_title }) => assert_eq!(seen_title, "Finder"),
        other => panic!("unexpected {other:?}"),
    }
    // An unreadable frontmost app is not a violation.
    assert!(matches!(inv.judge(Err(String::from("no osascript"))), InvariantResult::Holds));
}

#[test]
fn active_site_invariant_checks_the_url() {
    let inv = ActiveSiteInvariant { expected_url_substr: "arena.ai", expected_title_substr: "Arena" };
    assert!(matches!(inv.judge(Ok(String::from("https://arena.ai/c/1"))), InvariantResult::Holds));
    match inv.judge(Ok(String::from("https://example.com"))) {
        InvariantResult::Violated(Problem::WrongUrl { seen_url }) => assert_eq!(seen_url, "https://example.com"),
        other => panic!("unexpected {other:?}"),
    }
    assert!(matches!(inv.judge(Err(String::from("unsupported"))), InvariantResult::Holds));
}

#[test]
fn fullscreen_invariant() {
    let inv = BrowserFullscreenInvariant;
    assert!(matches!(inv.judge(Ok(true)), InvariantResult::Holds));
    assert!(matches!(inv.judge(Ok(false)), InvariantResult::Violated(Problem::BrowserNotFullscreen)));
    assert!(matches!(inv.judge(Err(String::from("no_window"))), InvariantResult::Holds));
}

#[test]
fn user_activity_is_a_mouse_move_the_bot_did_not_make() {
    let mut inv = UserActivityInvariant::new();
    assert!(matches!(inv.judge(Ok((10, 10)), false), InvariantResult::Holds));
    assert!(matches!(inv.judge(Ok((10, 10)), false), InvariantResult::Holds));
    assert!(matches!(inv.judge(Ok((50, 10)), false), InvariantResult::Violated(Problem::UserActivity)));
    // The bot's own move is not user activity.
    assert!(matches!(inv.judge(Ok((70, 70)), true), InvariantResult::Holds));
    assert_eq!(inv.last_known, Some((70, 70)));
    assert!(matches!(inv.judge(Err(String::from("x")), false), InvariantResult::Holds));
    assert_eq!(inv.last_known, Some((70, 70)));
}

#[test]
fn periodic_check_runs_at_most_once_per_interval() {
    let mut p = PeriodicInvariant::new(CheckKind::BrowserFullscreen(BrowserFullscreenInvariant), 1_000);
    assert_eq!(p.name(), "browser_fullscreen");
    assert!(p.due(5_000));
    assert!(!p.due(5_999));
    assert!(p.due(6_000));
    assert_eq!(p.last_checked_ms, Some(6_000));
}

#[test]
fn check_all_keeps_violations_in_order() {
    let problems = check_all(vec![
        InvariantResult::Holds,
        InvariantResult::Violated(Problem::UserActivity),
        InvariantResult::Holds,
        InvariantResult::Violated(Problem::BrowserNotFullscreen),
    ]);
    assert_eq!(problems.len(), 2);
    assert!(matches!(problems[0], Problem::UserActivity));
    assert!(matches!(problems[1], Problem::BrowserNotFullscreen));
    assert!(check_all(Vec::new()).is_empty());
}
