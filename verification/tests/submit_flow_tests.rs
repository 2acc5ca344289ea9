use web_ai_automation::adapter::AdapterError;
use web_ai_automation::arena::regions::Regions;
use web_ai_automation::arena::submit::{PasteAttempt, paste_attempts};
use web_ai_automation::arena::submit_flow::{SubmitAction, SubmitEvent, SubmitPhase, SubmitState, submit_begin, submit_next};

fn at(x: i32, y: i32, code_mode: bool) -> PasteAttempt {
    PasteAttempt { x, y, code_mode }
}

fn two_attempts() -> SubmitState {
    let (st, a) = submit_begin(vec![at(700, 550, false), at(700, 542, false)], (700, 550), (260, 880));
    assert!(matches!(a, SubmitAction::PrepareClipboard));
    st
}

fn finish_error(a: SubmitAction) -> AdapterError {
    match a {
        SubmitAction::Finish(Err(e)) => e,
        _ => panic!("expected a failed finish"),
    }
}

#[test]
fn submit_fresh_page_confirmed_by_url() {
    let st = two_attempts();
    let (st, a) = submit_next(&st, SubmitEvent::Outcome(Ok(())));
    assert!(matches!(a, SubmitAction::ClickAndPaste(p) if p == at(700, 550, false)));
    let (st, a) = submit_next(&st, SubmitEvent::Pasted(Ok(false)));
    assert!(matches!(a, SubmitAction::UndoAndReset));
    let (st, a) = submit_next(&st, SubmitEvent::Outcome(Ok(())));
    assert!(matches!(a, SubmitAction::ClickAndPaste(p) if p == at(700, 542, false)));
    let (st, a) = submit_next(&st, SubmitEvent::Pasted(Ok(true)));
    assert!(matches!(a, SubmitAction::LocateSend));
    let (st, a) = submit_next(
        &st,
        SubmitEvent::SendFound { in_chat: false, found_in_chat: None, found_fresh: Some((1200, 600)), calibrated: (1150, 610) },
    );
    assert!(matches!(a, SubmitAction::ClickSend((1150, 610))));
    assert_eq!(st.candidates, vec![(1150, 610), (1200, 600)]);
    let (st, a) = submit_next(&st, SubmitEvent::Outcome(Ok(())));
    assert!(matches!(a, SubmitAction::MoveAway));
    let (st, a) = submit_next(&st, SubmitEvent::Outcome(Ok(())));
    assert!(matches!(a, SubmitAction::ReadUrl));
    let (st, a) = submit_next(&st, SubmitEvent::Url("https://arena.ai/code/direct".to_string()));
    assert!(matches!(a, SubmitAction::ClickSend((1200, 600))));
    let (st, _) = submit_next(&st, SubmitEvent::Outcome(Ok(())));
    let (st, _) = submit_next(&st, SubmitEvent::Outcome(Ok(())));
    let (st, a) = submit_next(&st, SubmitEvent::Url("https://arena.ai/c/42".to_string()));
    assert!(matches!(a, SubmitAction::RestoreClipboard));
    assert!(st.confirmed);
    let (st, a) = submit_next(&st, SubmitEvent::Outcome(Ok(())));
    assert!(matches!(a, SubmitAction::Finish(Ok(()))));
    assert_eq!(st.phase, SubmitPhase::Finished);
}

#[test]
fn submit_in_chat_needs_cleared_input_and_started_generation() {
    let (st, _) = submit_begin(vec![at(640, 900, false)], (640, 900), (260, 880));
    let (st, _) = submit_next(&st, SubmitEvent::Outcome(Ok(())));
    let (st, _) = submit_next(&st, SubmitEvent::Pasted(Ok(true)));
    let (st, a) = submit_next(
        &st,
        SubmitEvent::SendFound { in_chat: true, found_in_chat: Some((1180, 900)), found_fresh: None, calibrated: (1150, 610) },
    );
    assert!(matches!(a, SubmitAction::ClickSend((1180, 900))));
    let (st, _) = submit_next(&st, SubmitEvent::Outcome(Ok(())));
    let (st, a) = submit_next(&st, SubmitEvent::Outcome(Ok(())));
    assert!(matches!(a, SubmitAction::MeasureInput));
    let (st, a) = submit_next(&st, SubmitEvent::InputCleared(true));
    assert!(matches!(a, SubmitAction::ConfirmStarted));
    let (st, a) = submit_next(&st, SubmitEvent::Started(Ok(false)));
    assert!(matches!(a, SubmitAction::PressReturn));
    let (st, a) = submit_next(&st, SubmitEvent::Outcome(Ok(())));
    assert!(matches!(a, SubmitAction::MeasureInput));
    let (st, _) = submit_next(&st, SubmitEvent::InputCleared(true));
    let (st, a) = submit_next(&st, SubmitEvent::Started(Ok(true)));
    assert!(matches!(a, SubmitAction::RestoreClipboard));
    let (_, a) = submit_next(&st, SubmitEvent::Outcome(Err("restore failed".to_string())));
    assert!(matches!(a, SubmitAction::Finish(Ok(()))));
}

#[test]
fn submit_unconfirmed_send_restores_then_fails() {
    let (st, _) = submit_begin(vec![at(640, 900, false)], (640, 900), (260, 880));
    let (st, _) = submit_next(&st, SubmitEvent::Outcome(Ok(())));
    let (st, _) = submit_next(&st, SubmitEvent::Pasted(Ok(true)));
    let (st, a) = submit_next(&st, SubmitEvent::SendFound { in_chat: true, found_in_chat: None, found_fresh: None, calibrated: (1, 1) });
    assert!(matches!(a, SubmitAction::PressReturn));
    let (st, _) = submit_next(&st, SubmitEvent::Outcome(Ok(())));
    let (st, a) = submit_next(&st, SubmitEvent::InputCleared(false));
    assert!(matches!(a, SubmitAction::RestoreClipboard));
    assert!(!st.confirmed);
    let (_, a) = submit_next(&st, SubmitEvent::Outcome(Ok(())));
    match finish_error(a) {
        AdapterError::Input(m) => {
            assert_eq!(m, "prompt pasted but send could not be confirmed; refusing to continue with stale input")
        },
        _ => panic!("expected an input error"),
    }
}

#[test]
fn submit_all_pastes_failing_names_positions() {
    let st = two_attempts();
    let (st, _) = submit_next(&st, SubmitEvent::Outcome(Ok(())));
    let (st, _) = submit_next(&st, SubmitEvent::Pasted(Ok(false)));
    let (st, _) = submit_next(&st, SubmitEvent::Outcome(Ok(())));
    let (st, a) = submit_next(&st, SubmitEvent::Pasted(Ok(false)));
    assert!(matches!(a, SubmitAction::RestoreClipboard));
    let (_, a) = submit_next(&st, SubmitEvent::Outcome(Ok(())));
    match finish_error(a) {
        AdapterError::Input(m) => assert_eq!(
            m,
            "prompt paste failed at (700,550) and code-mode (260,880) with ±offsets. Check the run screenshots folder to see actual textarea position."
        ),
        _ => panic!("expected an input error"),
    }
}

#[test]
fn submit_click_error_restores_clipboard_first() {
    let st = two_attempts();
    let (st, _) = submit_next(&st, SubmitEvent::Outcome(Ok(())));
    let (st, a) = submit_next(&st, SubmitEvent::Pasted(Err("mouse stuck".to_string())));
    assert!(matches!(a, SubmitAction::RestoreClipboard));
    let (_, a) = submit_next(&st, SubmitEvent::Outcome(Ok(())));
    match finish_error(a) {
        AdapterError::Input(m) => assert_eq!(m, "mouse stuck"),
        _ => panic!("expected an input error"),
    }
}

#[test]
fn submit_clipboard_failure_stops_at_once() {
    let st = two_attempts();
    let (st, a) = submit_next(&st, SubmitEvent::Outcome(Err("arboard new: no display".to_string())));
    assert_eq!(st.phase, SubmitPhase::Finished);
    match finish_error(a) {
        AdapterError::Clipboard(m) => assert_eq!(m, "arboard new: no display"),
        _ => panic!("expected a clipboard error"),
    }
}

#[test]
fn submit_code_mode_paste_sends_only_found_icon() {
    let attempts = paste_attempts(&Regions::mac_1512x982_code(), true, false);
    assert_eq!(attempts.len(), 10);
    let first = (attempts[0].x, attempts[0].y);
    let (st, _) = submit_begin(attempts, first, (1, 1));
    let (mut st, _) = submit_next(&st, SubmitEvent::Outcome(Ok(())));
    for _ in 0..5 {
        let (t, _) = submit_next(&st, SubmitEvent::Pasted(Ok(false)));
        let (t, a) = submit_next(&t, SubmitEvent::Outcome(Ok(())));
        assert!(matches!(a, SubmitAction::ClickAndPaste(_)));
        st = t;
    }
    let (st, _) = submit_next(&st, SubmitEvent::Pasted(Ok(true)));
    assert!(st.code_mode);
    let (st, _) = submit_next(
        &st,
        SubmitEvent::SendFound { in_chat: false, found_in_chat: Some((300, 900)), found_fresh: Some((5, 5)), calibrated: (6, 6) },
    );
    assert_eq!(st.candidates, vec![(300, 900)]);
}

#[test]
fn submit_event_out_of_turn_is_an_error() {
    let st = two_attempts();
    let (_, a) = submit_next(&st, SubmitEvent::InputCleared(true));
    match finish_error(a) {
        AdapterError::Other(m) => assert_eq!(m, "submit: the event does not answer the pending step"),
        _ => panic!("expected other"),
    }
}
