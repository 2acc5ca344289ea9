use web_ai_automation::adapter::AdapterError;
use web_ai_automation::deepseek::setup_flow::{
    DeepSeekSetupAction, DeepSeekSetupEvent, DeepSeekSetupPhase, deepseek_setup_begin, deepseek_setup_next,
};
use web_ai_automation::deepseek::submit_flow::{
    DeepSeekSubmitAction, DeepSeekSubmitEvent, deepseek_submit_begin, deepseek_submit_next,
};
use web_ai_automation::session::DeepSeekModelMode;

fn s(x: &str) -> String {
    x.to_string()
}

fn abort_text(a: &DeepSeekSetupAction) -> String {
    match a {
        DeepSeekSetupAction::Abort(m) => m.clone(),
        _ => panic!("expected an abort"),
    }
}

#[test]
fn deepseek_setup_full_run() {
    let (st, a) = deepseek_setup_begin(DeepSeekModelMode::Expert, true, false);
    assert!(matches!(a, DeepSeekSetupAction::FocusChrome));
    let (st, a) = deepseek_setup_next(&st, DeepSeekSetupEvent::FrontmostApp(s("Google Chrome")));
    assert!(matches!(a, DeepSeekSetupAction::FocusDeepSeekTab));
    let (st, a) = deepseek_setup_next(&st, DeepSeekSetupEvent::TabFocused(Err(s("no script"))));
    assert!(matches!(&a, DeepSeekSetupAction::OpenNewTab(u) if u == "https://chat.deepseek.com"));
    let (st, _) = deepseek_setup_next(&st, DeepSeekSetupEvent::Outcome(Ok(())));
    let (st, a) = deepseek_setup_next(&st, DeepSeekSetupEvent::Url(s("https://chat.deepseek.com/")));
    assert!(matches!(a, DeepSeekSetupAction::ReadWindow));
    let (st, a) = deepseek_setup_next(&st, DeepSeekSetupEvent::WindowRead(Ok((1512, 1512))));
    assert!(matches!(a, DeepSeekSetupAction::Tidy));
    let (st, a) = deepseek_setup_next(&st, DeepSeekSetupEvent::Outcome(Err(s("escape failed"))));
    assert!(matches!(a, DeepSeekSetupAction::StartNewChat));
    let (st, a) = deepseek_setup_next(&st, DeepSeekSetupEvent::Outcome(Ok(())));
    assert!(matches!(&a, DeepSeekSetupAction::Navigate(u) if u == "https://chat.deepseek.com"));
    let (st, a) = deepseek_setup_next(&st, DeepSeekSetupEvent::Outcome(Ok(())));
    assert!(matches!(a, DeepSeekSetupAction::StartNewChat));
    let (st, a) = deepseek_setup_next(&st, DeepSeekSetupEvent::Outcome(Ok(())));
    assert!(matches!(a, DeepSeekSetupAction::CheckAttachment));
    let (st, a) = deepseek_setup_next(&st, DeepSeekSetupEvent::Attachment(false));
    assert!(matches!(a, DeepSeekSetupAction::SelectModel(DeepSeekModelMode::Expert)));
    let (st, a) = deepseek_setup_next(&st, DeepSeekSetupEvent::Outcome(Ok(())));
    assert!(matches!(a, DeepSeekSetupAction::SetDeepThinking(true)));
    let (st, a) = deepseek_setup_next(&st, DeepSeekSetupEvent::Outcome(Ok(())));
    assert!(matches!(a, DeepSeekSetupAction::SetSmartSearch(false)));
    let (st, a) = deepseek_setup_next(&st, DeepSeekSetupEvent::Outcome(Ok(())));
    assert_eq!(st.phase, DeepSeekSetupPhase::Complete);
    match a {
        DeepSeekSetupAction::Done(r) => {
            assert!(r.browser_focused && r.navigated_to_deepseek && r.forced_fullscreen && r.clicked_new_chat);
            assert!(r.model_selected && r.deep_thinking_set && r.smart_search_set && !r.reused_existing_tab);
        },
        _ => panic!("expected done"),
    }
}

#[test]
fn deepseek_setup_focus_gives_up() {
    let (st, _) = deepseek_setup_begin(DeepSeekModelMode::Instant, false, false);
    let (st, _) = deepseek_setup_next(&st, DeepSeekSetupEvent::FrontmostApp(s("Finder")));
    let (st, _) = deepseek_setup_next(&st, DeepSeekSetupEvent::FrontmostApp(s("Finder")));
    let (_, a) = deepseek_setup_next(&st, DeepSeekSetupEvent::FrontmostApp(s("Finder")));
    assert_eq!(abort_text(&a), "DeepSeek setup failed: Chrome did not become frontmost");
}

#[test]
fn deepseek_setup_narrow_window_and_wrong_url() {
    let (st, _) = deepseek_setup_begin(DeepSeekModelMode::Instant, false, false);
    let (st, _) = deepseek_setup_next(&st, DeepSeekSetupEvent::FrontmostApp(s("Google Chrome")));
    let (st, a) = deepseek_setup_next(&st, DeepSeekSetupEvent::TabFocused(Ok(true)));
    assert!(matches!(a, DeepSeekSetupAction::ReadUrl));
    let (st2, a) = deepseek_setup_next(&st, DeepSeekSetupEvent::Url(s("https://example.com")));
    assert!(matches!(a, DeepSeekSetupAction::Navigate(_)));
    let (st2, _) = deepseek_setup_next(&st2, DeepSeekSetupEvent::Outcome(Ok(())));
    let (_, a) = deepseek_setup_next(&st2, DeepSeekSetupEvent::Url(s("https://example.com")));
    assert_eq!(abort_text(&a), "DeepSeek setup failed: current URL 'https://example.com' is not DeepSeek");

    let (st, _) = deepseek_setup_next(&st, DeepSeekSetupEvent::Url(s("https://chat.deepseek.com")));
    let (st, a) = deepseek_setup_next(&st, DeepSeekSetupEvent::WindowRead(Ok((900, 1512))));
    assert!(matches!(a, DeepSeekSetupAction::SetFullscreen));
    let (st, a) = deepseek_setup_next(&st, DeepSeekSetupEvent::Outcome(Ok(())));
    assert!(matches!(a, DeepSeekSetupAction::ReadWindowWidth));
    let (_, a) = deepseek_setup_next(&st, DeepSeekSetupEvent::WindowWidth(Ok(1000)));
    assert_eq!(abort_text(&a), "DeepSeek setup failed: Chrome width 1000 < screen width 1512");
}

#[test]
fn deepseek_setup_chip_after_reload_aborts() {
    let (st, _) = deepseek_setup_begin(DeepSeekModelMode::Instant, false, false);
    let (st, _) = deepseek_setup_next(&st, DeepSeekSetupEvent::FrontmostApp(s("Chrome")));
    let (st, _) = deepseek_setup_next(&st, DeepSeekSetupEvent::TabFocused(Ok(true)));
    let (st, _) = deepseek_setup_next(&st, DeepSeekSetupEvent::Url(s("https://chat.deepseek.com")));
    let (st, _) = deepseek_setup_next(&st, DeepSeekSetupEvent::WindowRead(Ok((1512, 1512))));
    let (st, _) = deepseek_setup_next(&st, DeepSeekSetupEvent::Outcome(Ok(())));
    let (st, _) = deepseek_setup_next(&st, DeepSeekSetupEvent::Outcome(Ok(())));
    let (st, _) = deepseek_setup_next(&st, DeepSeekSetupEvent::Outcome(Ok(())));
    let (st, _) = deepseek_setup_next(&st, DeepSeekSetupEvent::Outcome(Ok(())));
    let (_, a) = deepseek_setup_next(&st, DeepSeekSetupEvent::Attachment(true));
    assert_eq!(abort_text(&a), "DeepSeek setup failed: chip still present after reload — composer not empty");
}

#[test]
fn deepseek_submit_confirmed_by_cleared_input() {
    let (st, a) = deepseek_submit_begin(true, s("https://chat.deepseek.com/a/chat/s/1"));
    assert!(matches!(a, DeepSeekSubmitAction::PrepareClipboard));
    let (st, a) = deepseek_submit_next(&st, DeepSeekSubmitEvent::Outcome(Ok(())));
    assert!(matches!(a, DeepSeekSubmitAction::PasteIntoInput));
    let (st, a) = deepseek_submit_next(&st, DeepSeekSubmitEvent::Outcome(Ok(())));
    assert!(matches!(a, DeepSeekSubmitAction::LocateSend));
    let (st, a) = deepseek_submit_next(&st, DeepSeekSubmitEvent::SendAt(Some((1300, 900))));
    assert!(matches!(a, DeepSeekSubmitAction::ClickSend((1300, 900))));
    let (st, a) = deepseek_submit_next(&st, DeepSeekSubmitEvent::Outcome(Ok(())));
    assert!(matches!(a, DeepSeekSubmitAction::CheckSend));
    let (st, a) = deepseek_submit_next(
        &st,
        DeepSeekSubmitEvent::Checked {
            post_url: s("https://chat.deepseek.com/a/chat/s/1"),
            input_cleared: true,
            stop_visible: false,
            input_var: s("80.0->10.0"),
        },
    );
    assert!(matches!(a, DeepSeekSubmitAction::RestoreClipboard));
    let (_, a) = deepseek_submit_next(&st, DeepSeekSubmitEvent::Outcome(Ok(())));
    assert!(matches!(a, DeepSeekSubmitAction::Finish(Ok(()))));
}

#[test]
fn deepseek_submit_unconfirmed_reports_readings() {
    let (st, _) = deepseek_submit_begin(false, s("https://chat.deepseek.com/"));
    let (st, _) = deepseek_submit_next(&st, DeepSeekSubmitEvent::Outcome(Ok(())));
    let (st, _) = deepseek_submit_next(&st, DeepSeekSubmitEvent::Outcome(Ok(())));
    let (st, _) = deepseek_submit_next(&st, DeepSeekSubmitEvent::SendAt(Some((1, 2))));
    let (st, _) = deepseek_submit_next(&st, DeepSeekSubmitEvent::Outcome(Ok(())));
    let (st, _) = deepseek_submit_next(
        &st,
        DeepSeekSubmitEvent::Checked {
            post_url: s("https://chat.deepseek.com/"),
            input_cleared: false,
            stop_visible: false,
            input_var: s("12.0->12.0"),
        },
    );
    let (_, a) = deepseek_submit_next(&st, DeepSeekSubmitEvent::Outcome(Ok(())));
    match a {
        DeepSeekSubmitAction::Finish(Err(AdapterError::Input(m))) => assert_eq!(
            m,
            "DeepSeek send could not be confirmed: url_changed=false input_var 12.0->12.0 stop_visible=false"
        ),
        _ => panic!("expected an input error"),
    }
}

#[test]
fn deepseek_submit_url_move_confirms_and_missing_button_fails() {
    let (st, _) = deepseek_submit_begin(false, s("https://chat.deepseek.com/"));
    let (st, _) = deepseek_submit_next(&st, DeepSeekSubmitEvent::Outcome(Ok(())));
    let (st, _) = deepseek_submit_next(&st, DeepSeekSubmitEvent::Outcome(Ok(())));
    let (st2, a) = deepseek_submit_next(&st, DeepSeekSubmitEvent::SendAt(None));
    let _ = st2;
    match a {
        DeepSeekSubmitAction::Finish(Err(AdapterError::NotFound { what })) => {
            assert_eq!(what, "DeepSeek send button by matrix in first prompt regions")
        },
        _ => panic!("expected not found"),
    }
    let (st, _) = deepseek_submit_next(&st, DeepSeekSubmitEvent::SendAt(Some((1, 2))));
    let (st, _) = deepseek_submit_next(&st, DeepSeekSubmitEvent::Outcome(Ok(())));
    let (st, _) = deepseek_submit_next(
        &st,
        DeepSeekSubmitEvent::Checked {
            post_url: s("https://chat.deepseek.com/a/chat/s/9"),
            input_cleared: false,
            stop_visible: false,
            input_var: s("1.0->1.0"),
        },
    );
    let (_, a) = deepseek_submit_next(&st, DeepSeekSubmitEvent::Outcome(Ok(())));
    assert!(matches!(a, DeepSeekSubmitAction::Finish(Ok(()))));
}
