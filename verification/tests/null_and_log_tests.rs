use web_ai_automation::adapter::WebUiState;
use web_ai_automation::null::{NullAdapter, StateScript};
use web_ai_automation::runtime::{RuntimeState, RUNTIME_PATH};
use web_ai_automation::state_log::{transition_at, StateLog};

#[test]
fn null_adapter_holds_each_state_for_its_polls() {
    let script = StateScript { states: vec![WebUiState::Ready, WebUiState::Generating] };
    let mut a = NullAdapter::with_script_and_polls(script, 2);
    let seen: Vec<WebUiState> = (0..6).map(|_| a.detect_state().unwrap()).collect();
    assert_eq!(
        seen,
        vec![
            WebUiState::Ready,
            WebUiState::Ready,
            WebUiState::Generating,
            WebUiState::Generating,
            WebUiState::Generating,
            WebUiState::Generating
        ]
    );
    // Submitting restarts the script.
    a.submit_prompt("hi").unwrap();
    assert_eq!(a.detect_state().unwrap(), WebUiState::Ready);
}

#[test]
fn null_adapter_answers_without_a_screen() {
    let mut a = NullAdapter::new();
    assert_eq!(a.name(), "null");
    assert_eq!(a.detect_model().unwrap(), Some(String::from("null-model")));
    assert_eq!(a.copy_response().unwrap(), "[null adapter response]\nLast prompt was:\n<no prompt submitted>");
    a.submit_prompt("2 + 2?").unwrap();
    assert_eq!(a.copy_response().unwrap(), "[null adapter response]\nLast prompt was:\n2 + 2?");
    assert_eq!(a.dismiss_modal().unwrap(), false);
    // Zero polls per state count as one.
    let mut b = NullAdapter::with_script_and_polls(StateScript { states: vec![WebUiState::Complete, WebUiState::Error] }, 0);
    assert_eq!(b.detect_state().unwrap(), WebUiState::Complete);
    assert_eq!(b.detect_state().unwrap(), WebUiState::Error);
    // An empty script shows Unknown.
    let mut c = NullAdapter::with_script(StateScript { states: Vec::new() });
    assert_eq!(c.detect_state().unwrap(), WebUiState::Unknown);
    c.replace_script(StateScript::default());
    assert_eq!(c.detect_state().unwrap(), WebUiState::Ready);
    assert_eq!(WebUiState::ChatFull.as_str(), "ChatFull");
}

#[test]
fn transitions_carry_what_they_were_given() {
    let t = transition_at(
        String::from("2024-01-01T00:00:00+00:00"),
        "arena",
        2,
        3,
        "Generating",
        "Complete",
        Some(String::from("done")),
        None,
    );
    assert_eq!(t.timestamp, "2024-01-01T00:00:00+00:00");
    assert_eq!(t.adapter, "arena");
    assert_eq!((t.task_index, t.iteration), (2, 3));
    assert_eq!((t.from.as_str(), t.to.as_str()), ("Generating", "Complete"));
    assert_eq!(t.note.as_deref(), Some("done"));
    assert!(t.screenshot.is_none());
    let n = transition_at(String::new(), "null", 0, 1, "<start>", "Idle", None, Some(String::from("shot.png")));
    assert_eq!(n.to, "Idle");
    assert_eq!(n.screenshot.as_deref(), Some("shot.png"));
}

#[test]
fn state_log_remembers_its_path() {
    let log = StateLog::at(String::from("outputs/runs/r1/state_log.jsonl"));
    assert_eq!(log.path(), "outputs/runs/r1/state_log.jsonl");
}

#[test]
fn runtime_state_record() {
    let s = RuntimeState {
        task_index: 1,
        iteration: 4,
        last_state: String::from("Generating"),
        updated_at: String::from("2024-01-01T00:00:00Z"),
        adapter: String::from("arena"),
    };
    let c = s.clone();
    assert_eq!(c.iteration, 4);
    assert_eq!(RUNTIME_PATH, "session/runtime.json");
}

#[test]
fn null_adapter_replays_a_replaced_script_from_its_start() {
    let mut a = NullAdapter::with_script_and_polls(StateScript::default(), 3);
    for _ in 0..7 {
        a.detect_state().unwrap();
    }
    a.replace_script(StateScript { states: vec![WebUiState::Error, WebUiState::Ready] });
    assert_eq!(a.detect_state().unwrap(), WebUiState::Error);
    assert_eq!(a.detect_state().unwrap(), WebUiState::Error);
    assert_eq!(a.detect_state().unwrap(), WebUiState::Error);
    assert_eq!(a.detect_state().unwrap(), WebUiState::Ready);
}
