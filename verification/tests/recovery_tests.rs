use web_ai_automation::recovery::{
    default_actions, ActionKind, DismissModal, DispatchResult, DispatchStep, MaximizeBrowser, PressEscape, Problem,
    RecoveryDispatcher, RecoveryOutcome, StartNewChat, WaitForUserIdle,
};

fn order(d: &RecoveryDispatcher, p: Problem) -> Vec<&'static str> {
    // Escalate every action: the run tries them all, cheapest first.
    let mut run = d.begin(p);
    let mut seen = Vec::new();
    loop {
        match run.next() {
            DispatchStep::Execute(a) => {
                seen.push(a.name());
                run.record(RecoveryOutcome::Escalate);
            }
            DispatchStep::Done(DispatchResult::Failed { tried }) => {
                assert_eq!(tried, seen);
                return seen;
            }
            DispatchStep::Done(other) => panic!("unexpected {other:?}"),
        }
    }
}

#[test]
fn actions_have_their_names_and_costs() {
    assert_eq!(PressEscape.kind().name(), "press_escape");
    assert_eq!(PressEscape.kind().cost(), 1);
    assert_eq!(DismissModal.kind().cost(), 5);
    assert_eq!(MaximizeBrowser.kind().cost(), 15);
    assert_eq!(StartNewChat.kind().cost(), 50);
    assert_eq!(WaitForUserIdle.kind().name(), "wait_for_user_idle");
    assert!(ActionKind::StartNewChat.applies_to(&Problem::ChatFull));
    assert!(!ActionKind::StartNewChat.applies_to(&Problem::UnknownScreen));
    assert!(ActionKind::RefocusBrowser.applies_to(&Problem::BrowserNotForeground { seen_title: String::from("Finder") }));
}

#[test]
fn dispatcher_tries_applicable_actions_cheapest_first() {
    let d = RecoveryDispatcher::new(default_actions());
    assert_eq!(order(&d, Problem::UnknownScreen), vec!["press_escape", "dismiss_modal"]);
    assert_eq!(
        order(&d, Problem::UnexpectedTab),
        vec!["refocus_browser", "focus_site_tab", "navigate_back_to_site"]
    );
    assert_eq!(order(&d, Problem::WrongUrl { seen_url: String::from("x") }), vec!["focus_site_tab", "navigate_back_to_site"]);
    assert_eq!(order(&d, Problem::BrowserMissing), Vec::<&str>::new());
}

#[test]
fn equal_costs_keep_their_insertion_order() {
    // Escape and wait-for-idle both cost 1; each problem sees its own.
    let d = RecoveryDispatcher::new(vec![ActionKind::WaitForUserIdle, ActionKind::PressEscape]);
    assert_eq!(order(&d, Problem::UserActivity), vec!["wait_for_user_idle"]);
    assert_eq!(order(&d, Problem::UnexpectedModal), vec!["press_escape"]);
    assert_eq!(d.backoff_ms(), 750);
}

#[test]
fn success_stops_the_dispatch() {
    let d = RecoveryDispatcher::new(default_actions());
    let mut run = d.begin(Problem::UnexpectedModal);
    assert!(matches!(run.next(), DispatchStep::Execute(ActionKind::PressEscape)));
    assert!(!run.record(RecoveryOutcome::Escalate));
    assert!(matches!(run.next(), DispatchStep::Execute(ActionKind::DismissModal)));
    assert!(!run.record(RecoveryOutcome::Success));
    match run.next() {
        DispatchStep::Done(DispatchResult::Recovered { action }) => assert_eq!(action, "dismiss_modal"),
        other => panic!("unexpected {other:?}"),
    }
}

#[test]
fn retry_repeats_an_action_at_most_twice_more() {
    let d = RecoveryDispatcher::new(default_actions());
    let mut run = d.begin(Problem::ChatFull);
    // First attempt and two retries on the same action, each after a backoff.
    for _ in 0..3 {
        assert!(matches!(run.next(), DispatchStep::Execute(ActionKind::StartNewChat)));
        assert!(run.record(RecoveryOutcome::Retry));
    }
    match run.next() {
        DispatchStep::Done(DispatchResult::Failed { tried }) => assert_eq!(tried, vec!["start_new_chat"]),
        other => panic!("unexpected {other:?}"),
    }
}

#[test]
fn problems_describe_themselves() {
    assert_eq!(Problem::BrowserNotForeground { seen_title: String::from("Finder") }.describe(), "browser not foreground (saw 'Finder')");
    assert_eq!(Problem::WrongUrl { seen_url: String::from("x.com") }.describe(), "wrong URL (saw 'x.com')");
    assert_eq!(Problem::UnknownScreen.describe(), "unknown screen");
    assert_eq!(Problem::UserActivity.describe(), "user activity detected");
    assert_eq!(Problem::BrowserNotFullscreen.describe(), "browser not fullscreen");
    assert_eq!(Problem::Other(String::from("boom")).describe(), "other: boom");
    assert!(Problem::ChatFull.is_chat_full());
    assert!(!Problem::GenerationError.is_chat_full());
}
