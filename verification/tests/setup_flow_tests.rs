use web_ai_automation::arena::setup_flow::{
    SetupAction, SetupCheckpoint, SetupEvent, SetupPhase, SetupState, SetupTemplate, setup_begin, setup_next,
};
use web_ai_automation::session::PromptMode;

fn s(x: &str) -> String {
    x.to_string()
}

/// One step, then every modal check answered "none" and every reference
/// image "captured".
fn next(st: &SetupState, e: SetupEvent) -> (SetupState, SetupAction) {
    let (mut st, mut a) = setup_next(st, e);
    loop {
        let e = match a {
            SetupAction::CheckModal(_) => SetupEvent::Modal(None),
            SetupAction::VerifyTemplate(_) => SetupEvent::TemplateCaptured(true),
            _ => return (st, a),
        };
        let (t, b) = setup_next(&st, e);
        st = t;
        a = b;
    }
}

fn abort_text(a: &SetupAction) -> String {
    match a {
        SetupAction::Abort(m) => m.clone(),
        _ => panic!("expected an abort"),
    }
}

/// Drive a fresh Coding setup up to the point where Chrome is focused and
/// a new tab on Arena was opened and shows the Code category.
fn reach_window_check(model: Option<String>) -> SetupState {
    let (st, a) = setup_begin(PromptMode::Coding, model);
    assert!(matches!(a, SetupAction::FocusChrome));
    let (st, a) = next(&st, SetupEvent::FrontmostApp(s("Google Chrome")));
    assert!(matches!(a, SetupAction::FocusArenaChatTab));
    let (st, a) = next(&st, SetupEvent::ArenaTabFocused(true));
    assert!(matches!(a, SetupAction::ReadPage));
    let (st, a) = next(&st, SetupEvent::Page { url: s("https://arena.ai/code/direct"), title: s("Arena") });
    assert!(matches!(a, SetupAction::ReadWindow));
    st
}

#[test]
fn setup_full_run_reaches_done() {
    let (st, _) = setup_begin(PromptMode::Coding, None);
    let (st, a) = next(&st, SetupEvent::FrontmostApp(s("Finder")));
    assert!(matches!(a, SetupAction::FocusChrome));
    let (st, a) = next(&st, SetupEvent::FrontmostApp(s("Google Chrome")));
    assert!(matches!(a, SetupAction::FocusArenaChatTab));
    let (st, a) = next(&st, SetupEvent::ArenaTabFocused(false));
    match &a {
        SetupAction::OpenNewTab(u) => assert_eq!(u, "https://arena.ai"),
        _ => panic!("expected a new tab"),
    }
    let (st, a) = next(&st, SetupEvent::Outcome(Ok(())));
    assert!(matches!(a, SetupAction::ReadPage));
    let (st, a) = next(&st, SetupEvent::Page { url: s("https://arena.ai/"), title: s("LMArena") });
    match &a {
        SetupAction::Navigate(u) => assert_eq!(u, "https://arena.ai/code/direct"),
        _ => panic!("expected navigation to the category page"),
    }
    let (st, a) = next(&st, SetupEvent::Outcome(Ok(())));
    assert!(matches!(a, SetupAction::ReadPage));
    let (st, a) = next(&st, SetupEvent::Page { url: s("https://arena.ai/code/direct"), title: s("Arena") });
    assert!(matches!(a, SetupAction::ReadWindow));
    let (st, a) = next(&st, SetupEvent::WindowRead(Ok((1400, 1512))));
    assert!(matches!(a, SetupAction::SetFullscreen));
    let (st, a) = next(&st, SetupEvent::Outcome(Ok(())));
    assert!(matches!(a, SetupAction::ReadWindowWidth));
    let (st, a) = next(&st, SetupEvent::WindowWidth(1504));
    assert!(matches!(a, SetupAction::ReadSidebar));
    let (st, a) = next(&st, SetupEvent::SidebarExpanded(true));
    assert!(matches!(a, SetupAction::ClickSidebarToggle));
    let (st, a) = next(&st, SetupEvent::Outcome(Ok(())));
    assert!(matches!(a, SetupAction::ReadSidebar));
    let (st, a) = next(&st, SetupEvent::SidebarExpanded(false));
    assert!(matches!(a, SetupAction::ReadUrl));
    let (st, a) = next(&st, SetupEvent::Url(s("https://arena.ai/code/direct")));
    assert!(matches!(a, SetupAction::ReadSidebar));
    let (st, a) = next(&st, SetupEvent::SidebarExpanded(false));
    assert!(matches!(a, SetupAction::ReadSidebar));
    let (st, a) = next(&st, SetupEvent::SidebarExpanded(false));
    assert!(matches!(a, SetupAction::StartNewChat));
    let (st, a) = next(&st, SetupEvent::Outcome(Ok(())));
    assert!(matches!(a, SetupAction::ReadUrl));
    let (st, a) = next(&st, SetupEvent::Url(s("https://arena.ai/code/direct")));
    assert_eq!(st.phase, SetupPhase::Complete);
    match a {
        SetupAction::Done(r) => {
            assert!(r.browser_focused && r.navigated_to_arena && r.navigated_to_home && r.clicked_new_chat);
            assert!(r.forced_fullscreen && r.sidebar_collapsed && r.forced_direct_mode);
            assert!(!r.reused_existing_tab && !r.model_selected);
        },
        _ => panic!("expected done"),
    }
}

#[test]
fn setup_gives_up_after_three_focus_attempts() {
    let (st, _) = setup_begin(PromptMode::Research, None);
    let (st, a) = next(&st, SetupEvent::FrontmostApp(s("Finder")));
    assert!(matches!(a, SetupAction::FocusChrome));
    let (st, a) = next(&st, SetupEvent::FrontmostApp(s("Terminal")));
    assert!(matches!(a, SetupAction::FocusChrome));
    let (st, a) = next(&st, SetupEvent::FrontmostApp(s("Safari")));
    assert_eq!(abort_text(&a), "verify failed step 1: Chrome did not become frontmost after 3 attempts");
    assert_eq!(st.phase, SetupPhase::Failed);
    assert!(!st.report.browser_focused);
}

#[test]
fn setup_focus_is_case_insensitive() {
    let (st, _) = setup_begin(PromptMode::Research, None);
    let (_, a) = next(&st, SetupEvent::FrontmostApp(s("GOOGLE CHROME")));
    assert!(matches!(a, SetupAction::FocusArenaChatTab));
}

#[test]
fn setup_rejects_a_tab_off_arena() {
    let (st, _) = setup_begin(PromptMode::Coding, None);
    let (st, _) = next(&st, SetupEvent::FrontmostApp(s("Google Chrome")));
    let (st, _) = next(&st, SetupEvent::ArenaTabFocused(true));
    let (_, a) = next(&st, SetupEvent::Page { url: s("https://example.com"), title: s("Example") });
    assert_eq!(abort_text(&a), "verify failed step 2: URL='https://example.com' is not arena.ai");
}

#[test]
fn setup_marketing_page_after_redirect_aborts() {
    let (st, _) = setup_begin(PromptMode::Research, None);
    let (st, _) = next(&st, SetupEvent::FrontmostApp(s("Google Chrome")));
    let (st, _) = next(&st, SetupEvent::ArenaTabFocused(true));
    let (st, a) = next(&st, SetupEvent::Page { url: s("https://arena.ai/text/direct"), title: s("LLM Leaderboard") });
    match &a {
        SetupAction::Navigate(u) => assert_eq!(u, "https://arena.ai/text/direct"),
        _ => panic!("expected navigation"),
    }
    let (st, _) = next(&st, SetupEvent::Outcome(Ok(())));
    let (_, a) = next(&st, SetupEvent::Page { url: s("https://arena.ai/leaderboard"), title: s("Leaderboard") });
    assert_eq!(
        abort_text(&a),
        "verify failed step 2: still on marketing page after redirect (title 'Leaderboard'). Log in at https://arena.ai then re-run."
    );
}

#[test]
fn setup_navigation_error_names_target() {
    let (st, _) = setup_begin(PromptMode::Coding, None);
    let (st, _) = next(&st, SetupEvent::FrontmostApp(s("Google Chrome")));
    let (st, _) = next(&st, SetupEvent::ArenaTabFocused(true));
    let (st, _) = next(&st, SetupEvent::Page { url: s("https://arena.ai/"), title: s("Arena") });
    let (_, a) = next(&st, SetupEvent::Outcome(Err(s("timeout"))));
    assert_eq!(abort_text(&a), "navigate to https://arena.ai/code/direct: timeout");
}

#[test]
fn setup_window_too_narrow_after_four_reads() {
    let st = reach_window_check(None);
    let (st, _) = next(&st, SetupEvent::WindowRead(Ok((1200, 1512))));
    let (st, _) = next(&st, SetupEvent::Outcome(Ok(())));
    let (st, a) = next(&st, SetupEvent::WindowWidth(1200));
    assert!(matches!(a, SetupAction::ReadWindowWidth));
    let (st, _) = next(&st, SetupEvent::WindowWidth(1200));
    let (st, a) = next(&st, SetupEvent::WindowWidth(1200));
    assert!(matches!(a, SetupAction::ReadWindowWidth));
    let (_, a) = next(&st, SetupEvent::WindowWidth(-3));
    assert_eq!(
        abort_text(&a),
        "verify failed step 3: window width -3 still < screen width 1512 after fullscreen toggle"
    );
}

#[test]
fn setup_sidebar_that_stays_open_aborts() {
    let st = reach_window_check(None);
    let (st, _) = next(&st, SetupEvent::WindowRead(Ok((1512, 1512))));
    let (mut st, _) = next(&st, SetupEvent::SidebarExpanded(true));
    for _ in 0..2 {
        let (t, a) = next(&st, SetupEvent::Outcome(Ok(())));
        assert!(matches!(a, SetupAction::ReadSidebar));
        let (t, a) = next(&t, SetupEvent::SidebarExpanded(true));
        assert!(matches!(a, SetupAction::ClickSidebarToggle));
        st = t;
    }
    let (st, _) = next(&st, SetupEvent::Outcome(Ok(())));
    let (_, a) = next(&st, SetupEvent::SidebarExpanded(true));
    assert_eq!(abort_text(&a), "verify failed step 4: sidebar still expanded after 3 collapse attempts");
}

#[test]
fn setup_toggle_click_error_names_attempt() {
    let st = reach_window_check(None);
    let (st, _) = next(&st, SetupEvent::WindowRead(Ok((1512, 1512))));
    let (st, _) = next(&st, SetupEvent::SidebarExpanded(true));
    let (_, a) = next(&st, SetupEvent::Outcome(Err(s("no mouse"))));
    assert_eq!(abort_text(&a), "sidebar toggle click attempt 1: no mouse");
}

/// From the window check to the point where the model is looked at.
fn reach_model_check(model: Option<String>) -> SetupState {
    let has_model = model.is_some();
    let st = reach_window_check(model);
    let (st, _) = next(&st, SetupEvent::WindowRead(Ok((1512, 1512))));
    let (st, _) = next(&st, SetupEvent::SidebarExpanded(false));
    let (st, a) = next(&st, SetupEvent::Url(s("https://arena.ai/c/abc")));
    match &a {
        SetupAction::Navigate(u) => assert_eq!(u, "https://arena.ai/code/direct"),
        _ => panic!("expected navigation to direct mode"),
    }
    let (st, _) = next(&st, SetupEvent::Outcome(Ok(())));
    let (st, _) = next(&st, SetupEvent::Url(s("https://arena.ai/code/direct")));
    let (st, _) = next(&st, SetupEvent::SidebarExpanded(false));
    let (st, a) = next(&st, SetupEvent::SidebarExpanded(true));
    if has_model {
        assert!(matches!(a, SetupAction::ReadTitleModel));
    } else {
        assert!(matches!(a, SetupAction::StartNewChat));
    }
    assert!(st.sidebar_expanded);
    st
}

#[test]
fn setup_direct_mode_still_missing_aborts() {
    let st = reach_window_check(None);
    let (st, _) = next(&st, SetupEvent::WindowRead(Ok((1512, 1512))));
    let (st, _) = next(&st, SetupEvent::SidebarExpanded(false));
    let (st, _) = next(&st, SetupEvent::Url(s("https://arena.ai/c/abc")));
    let (st, _) = next(&st, SetupEvent::Outcome(Ok(())));
    let (_, a) = next(&st, SetupEvent::Url(s("https://arena.ai/c/abc")));
    assert_eq!(
        abort_text(&a),
        "verify failed step 5: URL 'https://arena.ai/c/abc' still doesn't contain /direct after navigation to https://arena.ai/code/direct"
    );
}

#[test]
fn setup_model_already_shown_is_selected() {
    let st = reach_model_check(Some(s("gemini-pro")));
    let (st, a) = next(&st, SetupEvent::TitleModel(Some(s("Gemini-Pro-2"))));
    assert!(matches!(a, SetupAction::StartNewChat));
    assert!(st.report.model_selected);
}

#[test]
fn setup_model_is_picked_with_sidebar_state() {
    let st = reach_model_check(Some(s("gpt-5")));
    let (st, a) = next(&st, SetupEvent::TitleModel(None));
    match &a {
        SetupAction::SelectModel { model, sidebar_expanded } => {
            assert_eq!(model, "gpt-5");
            assert!(*sidebar_expanded);
        },
        _ => panic!("expected a model pick"),
    }
    let (st, a) = next(&st, SetupEvent::Outcome(Ok(())));
    assert!(matches!(a, SetupAction::StartNewChat));
    let (st, _) = next(&st, SetupEvent::Outcome(Ok(())));
    let (_, a) = next(&st, SetupEvent::Url(s("https://arena.ai/code/direct")));
    match a {
        SetupAction::Done(r) => assert!(r.model_selected && r.reused_existing_tab),
        _ => panic!("expected done"),
    }
}

#[test]
fn setup_stale_chat_after_new_chat_aborts() {
    let st = reach_model_check(Some(s("gpt-5")));
    let (st, _) = next(&st, SetupEvent::TitleModel(Some(s("gpt-5"))));
    let (st, _) = next(&st, SetupEvent::Outcome(Ok(())));
    let (_, a) = next(&st, SetupEvent::Url(s("https://arena.ai/c/123")));
    assert_eq!(
        abort_text(&a),
        "verify failed step 7: still on active chat URL 'https://arena.ai/c/123' after start_new_chat. New-chat button missed or page didn't reset."
    );
}

#[test]
fn setup_new_chat_error_is_reported() {
    let st = reach_model_check(None);
    let (_, a) = next(&st, SetupEvent::Outcome(Err(s("Input(\"x\")"))));
    assert_eq!(abort_text(&a), "verify failed step 7: start_new_chat: Input(\"x\")");
}

#[test]
fn setup_event_out_of_turn_ends_setup() {
    let (st, _) = setup_begin(PromptMode::Coding, None);
    let (st, a) = next(&st, SetupEvent::Url(s("https://arena.ai")));
    assert_eq!(abort_text(&a), "setup: the event does not answer the pending step");
    assert_eq!(st.phase, SetupPhase::Failed);
}

#[test]
fn setup_checks_modals_and_reference_images_in_order() {
    let (st, _) = setup_begin(PromptMode::Coding, None);
    let (st, _) = setup_next(&st, SetupEvent::FrontmostApp(s("Google Chrome")));
    let (st, a) = setup_next(&st, SetupEvent::ArenaTabFocused(true));
    assert!(matches!(a, SetupAction::CheckModal(SetupCheckpoint::AfterArenaLoad)));
    let (st, a) = setup_next(&st, SetupEvent::Modal(None));
    assert!(matches!(a, SetupAction::ReadPage));
    let (st, _) = setup_next(&st, SetupEvent::Page { url: s("https://arena.ai/code/direct"), title: s("Arena") });
    let (st, _) = setup_next(&st, SetupEvent::WindowRead(Ok((1512, 1512))));
    let (st, a) = setup_next(&st, SetupEvent::SidebarExpanded(false));
    assert!(matches!(a, SetupAction::VerifyTemplate(SetupTemplate::SidebarIcon)));
    assert!(!st.report.sidebar_collapsed);
    let (st, a) = setup_next(&st, SetupEvent::TemplateCaptured(true));
    assert!(matches!(a, SetupAction::CheckModal(SetupCheckpoint::AfterSidebar)));
    assert!(st.report.sidebar_collapsed);
    let (st, a) = setup_next(&st, SetupEvent::Modal(None));
    assert!(matches!(a, SetupAction::ReadUrl));
    let (st, a) = setup_next(&st, SetupEvent::Url(s("https://arena.ai/code/direct")));
    assert!(matches!(a, SetupAction::VerifyTemplate(SetupTemplate::ModeDirect)));
    let (_, a) = setup_next(&st, SetupEvent::TemplateCaptured(false));
    assert_eq!(abort_text(&a), "verify failed: could not capture template region 'mode_dropdown_direct'");
}

#[test]
fn setup_modal_overlay_aborts_with_its_description() {
    let (st, _) = setup_begin(PromptMode::Coding, None);
    let (st, _) = setup_next(&st, SetupEvent::FrontmostApp(s("Google Chrome")));
    let (st, _) = setup_next(&st, SetupEvent::ArenaTabFocused(true));
    let (_, a) = setup_next(&st, SetupEvent::Modal(Some(s("Centre panel bright on a dimmed page."))));
    assert_eq!(
        abort_text(&a),
        "MODAL/CAPTCHA detected after step 'step-2-after-arena-load'. Centre panel bright on a dimmed page.\nSolve the modal manually in Chrome, then re-run the session."
    );
}
