//! Arena's one-shot session setup as a checked protocol. Each step reads
//! the browser's state, acts when the state is not yet right, reads again,
//! and gives up with a message when the state it needs does not appear.
//! The caller performs each requested action and answers with what it
//! observed; `setup_next` decides what comes next.
use vstd::prelude::*;
use crate::arena::ARENA_HOME_URL;
use crate::arena::session_setup::{SetupReport, is_marketing_title, marketing_title};
use crate::arena::setup_steps::{
    category_spec, category_target, frontmost_is_chrome, in_direct_mode, model_already_selected,
    model_shown, needs_category_navigation, on_arena, window_fills_width,
};
use crate::session::PromptMode;
use crate::text::{decimal, has_substr, int_text, lower_text, push_decimal, push_int, str_contains};

verus! {

/// Where the setup stands: which observation it waits for.
#[derive(Clone, Copy, Debug, PartialEq, Eq, Structural)]
pub enum SetupPhase {
    /// Chrome was asked to the front (`attempt` of 3); the frontmost app is due.
    FocusWait { attempt: u32 },
    /// An existing Arena chat tab was looked for.
    FindTab,
    /// A new tab on Arena's home page was asked for.
    OpeningTab,
    /// The tab's URL and title are due.
    Landing,
    /// The tab was sent to the category page.
    Categorizing,
    /// The title after the category page loaded is due.
    CategoryCheck,
    /// Chrome's window width and the screen width are due.
    Measuring,
    /// Fullscreen was asked for.
    Fullscreening { screen: i32 },
    /// The window width after fullscreen (`attempt` of 4) is due.
    WidthRecheck { attempt: u32, screen: i32 },
    /// Whether the sidebar is expanded is due.
    SidebarCheck,
    /// The sidebar toggle was clicked (`attempt` of 3).
    Collapsing { attempt: u32, after_direct: bool },
    /// Whether the sidebar is still expanded after that click is due.
    CollapseCheck { attempt: u32, after_direct: bool },
    /// The URL, to check Direct mode, is due.
    DirectCheck,
    /// The tab was sent to the Direct-mode page.
    DirectNavigating,
    /// The URL after that is due.
    DirectRecheck,
    /// Whether navigation expanded the sidebar again is due.
    SidebarAfterDirect,
    /// The sidebar's final state, which places the model header, is due.
    SidebarFinal,
    /// The model the tab title names is due.
    ModelCheck,
    /// The model was picked in the dropdown.
    Selecting,
    /// A new chat was asked for.
    NewChatting,
    /// The URL after the new chat is due.
    FreshCheck,
    /// Whether a modal overlay covers the page at this checkpoint is due.
    ModalAt { at: SetupCheckpoint },
    /// Whether the region of this reference image could be captured is due.
    TemplateAt { template: SetupTemplate },
    /// Setup finished.
    Complete,
    /// Setup gave up.
    Failed,
}

/// Where the setup checks that no modal overlay (a CAPTCHA, a dialog)
/// covers the page.
#[derive(Clone, Copy, Debug, PartialEq, Eq, Structural)]
pub enum SetupCheckpoint {
    AfterArenaLoad,
    AfterSidebar,
    AfterDirect,
    AfterModel,
    AfterNewChat,
}

/// The reference images the setup compares the screen with.
#[derive(Clone, Copy, Debug, PartialEq, Eq, Structural)]
pub enum SetupTemplate {
    /// The new-chat icon of the collapsed sidebar.
    SidebarIcon,
    /// The mode dropdown showing Direct.
    ModeDirect,
    /// The send button of a fresh chat.
    SendButton,
}

pub open spec fn checkpoint_label(c: SetupCheckpoint) -> Seq<char> {
    match c {
        SetupCheckpoint::AfterArenaLoad => "step-2-after-arena-load"@,
        SetupCheckpoint::AfterSidebar => "step-4-sidebar"@,
        SetupCheckpoint::AfterDirect => "step-5-after-direct"@,
        SetupCheckpoint::AfterModel => "step-6-after-model"@,
        SetupCheckpoint::AfterNewChat => "step-7-after-new-chat"@,
    }
}

/// The name a checkpoint is reported under.
pub fn checkpoint_name(c: SetupCheckpoint) -> (r: &'static str)
    ensures
        r@ == checkpoint_label(c),
{
    match c {
        SetupCheckpoint::AfterArenaLoad => "step-2-after-arena-load",
        SetupCheckpoint::AfterSidebar => "step-4-sidebar",
        SetupCheckpoint::AfterDirect => "step-5-after-direct",
        SetupCheckpoint::AfterModel => "step-6-after-model",
        SetupCheckpoint::AfterNewChat => "step-7-after-new-chat",
    }
}

pub open spec fn template_label(t: SetupTemplate) -> Seq<char> {
    match t {
        SetupTemplate::SidebarIcon => "sidebar_collapsed_new_chat_icon"@,
        SetupTemplate::ModeDirect => "mode_dropdown_direct"@,
        SetupTemplate::SendButton => "fresh_send_button_visible"@,
    }
}

/// The name a reference image is reported under.
pub fn template_name(t: SetupTemplate) -> (r: &'static str)
    ensures
        r@ == template_label(t),
{
    match t {
        SetupTemplate::SidebarIcon => "sidebar_collapsed_new_chat_icon",
        SetupTemplate::ModeDirect => "mode_dropdown_direct",
        SetupTemplate::SendButton => "fresh_send_button_visible",
    }
}

/// The setup's state: the step, what it was configured with, and what took
/// effect so far.
pub struct SetupState {
    pub phase: SetupPhase,
    pub mode: PromptMode,
    pub model: Option<String>,
    pub report: SetupReport,
    pub sidebar_expanded: bool,
}

/// What the caller observed after performing the requested action.
pub enum SetupEvent {
    /// The name of the frontmost application.
    FrontmostApp(String),
    /// Whether an existing Arena chat tab was found and focused.
    ArenaTabFocused(bool),
    /// How an action that can fail went.
    Outcome(Result<(), String>),
    /// The active tab's URL and title.
    Page { url: String, title: String },
    /// Chrome's window width and the screen width, or why they could not be read.
    WindowRead(Result<(i32, i32), String>),
    /// Chrome's window width (0 when it could not be read).
    WindowWidth(i32),
    /// Whether the sidebar is expanded.
    SidebarExpanded(bool),
    /// The active tab's URL.
    Url(String),
    /// The model the tab title names, if any.
    TitleModel(Option<String>),
    /// What covers the page, when a modal overlay does.
    Modal(Option<String>),
    /// Whether the reference image's region could be captured (a capture
    /// that does not match is only reported).
    TemplateCaptured(bool),
}

/// What the caller should do next.
pub enum SetupAction {
    /// Bring Chrome to the front, then report the frontmost app.
    FocusChrome,
    /// Focus an existing Arena chat tab, then report whether one was found.
    FocusArenaChatTab,
    /// Open a new tab on this URL.
    OpenNewTab(String),
    /// Report the tab's URL and title.
    ReadPage,
    /// Send the current tab to this URL.
    Navigate(String),
    /// Report Chrome's window width and the screen width.
    ReadWindow,
    /// Report Chrome's window width.
    ReadWindowWidth,
    /// Put Chrome in fullscreen.
    SetFullscreen,
    /// Report whether the sidebar is expanded.
    ReadSidebar,
    /// Click the sidebar toggle.
    ClickSidebarToggle,
    /// Report the tab's URL.
    ReadUrl,
    /// Report the model the tab title names.
    ReadTitleModel,
    /// Pick this model in the model dropdown; the header's place depends on
    /// whether the sidebar is expanded.
    SelectModel { model: String, sidebar_expanded: bool },
    /// Start a new chat.
    StartNewChat,
    /// Report whether a modal overlay covers the page.
    CheckModal(SetupCheckpoint),
    /// Compare the screen with this reference image.
    VerifyTemplate(SetupTemplate),
    /// Setup succeeded.
    Done(SetupReport),
    /// Setup gave up for this reason.
    Abort(String),
}

/// An action with its text taken out: the kind, and what it carries
/// besides text.
pub enum SetupCall {
    FocusChrome,
    FocusArenaChatTab,
    OpenNewTab,
    ReadPage,
    Navigate,
    ReadWindow,
    ReadWindowWidth,
    SetFullscreen,
    ReadSidebar,
    ClickSidebarToggle,
    ReadUrl,
    ReadTitleModel,
    SelectModel(bool),
    StartNewChat,
    CheckModal(SetupCheckpoint),
    VerifyTemplate(SetupTemplate),
    Done(SetupReport),
    Abort,
}

/// An action as its kind and its text (a URL, a model or a message).
pub open spec fn action_view(a: SetupAction) -> (SetupCall, Seq<char>) {
    match a {
        SetupAction::FocusChrome => (SetupCall::FocusChrome, Seq::empty()),
        SetupAction::FocusArenaChatTab => (SetupCall::FocusArenaChatTab, Seq::empty()),
        SetupAction::OpenNewTab(u) => (SetupCall::OpenNewTab, u@),
        SetupAction::ReadPage => (SetupCall::ReadPage, Seq::empty()),
        SetupAction::Navigate(u) => (SetupCall::Navigate, u@),
        SetupAction::ReadWindow => (SetupCall::ReadWindow, Seq::empty()),
        SetupAction::ReadWindowWidth => (SetupCall::ReadWindowWidth, Seq::empty()),
        SetupAction::SetFullscreen => (SetupCall::SetFullscreen, Seq::empty()),
        SetupAction::ReadSidebar => (SetupCall::ReadSidebar, Seq::empty()),
        SetupAction::ClickSidebarToggle => (SetupCall::ClickSidebarToggle, Seq::empty()),
        SetupAction::ReadUrl => (SetupCall::ReadUrl, Seq::empty()),
        SetupAction::ReadTitleModel => (SetupCall::ReadTitleModel, Seq::empty()),
        SetupAction::SelectModel { model, sidebar_expanded } => (SetupCall::SelectModel(sidebar_expanded), model@),
        SetupAction::StartNewChat => (SetupCall::StartNewChat, Seq::empty()),
        SetupAction::CheckModal(c) => (SetupCall::CheckModal(c), Seq::empty()),
        SetupAction::VerifyTemplate(t) => (SetupCall::VerifyTemplate(t), Seq::empty()),
        SetupAction::Done(rep) => (SetupCall::Done(rep), Seq::empty()),
        SetupAction::Abort(m) => (SetupCall::Abort, m@),
    }
}

/// The outcome of one step: the next state, and the action as its view.
pub type SetupOutcome = (SetupState, (SetupCall, Seq<char>));

// ── Messages ────────────────────────────────────────────────────────────────

pub open spec fn focus_failed_msg() -> Seq<char> {
    "verify failed step 1: Chrome did not become frontmost after 3 attempts"@
}

pub open spec fn not_arena_msg(url: Seq<char>) -> Seq<char> {
    "verify failed step 2: URL='"@ + url + "' is not arena.ai"@
}

pub open spec fn open_tab_msg(e: Seq<char>) -> Seq<char> {
    "open_new_browser_tab: "@ + e
}

pub open spec fn navigate_msg(target: Seq<char>, e: Seq<char>) -> Seq<char> {
    "navigate to "@ + target + ": "@ + e
}

pub open spec fn marketing_msg(title: Seq<char>) -> Seq<char> {
    "verify failed step 2: still on marketing page after redirect (title '"@ + title
        + "'). Log in at https://arena.ai then re-run."@
}

pub open spec fn fullscreen_msg(e: Seq<char>) -> Seq<char> {
    "set_chrome_fullscreen: "@ + e
}

pub open spec fn width_msg(width: int, screen: int) -> Seq<char> {
    "verify failed step 3: window width "@ + int_text(width) + " still < screen width "@ + int_text(screen)
        + " after fullscreen toggle"@
}

pub open spec fn toggle_msg(attempt: nat, e: Seq<char>) -> Seq<char> {
    "sidebar toggle click attempt "@ + decimal(attempt) + ": "@ + e
}

pub open spec fn collapse_failed_msg() -> Seq<char> {
    "verify failed step 4: sidebar still expanded after 3 collapse attempts"@
}

pub open spec fn direct_msg(url: Seq<char>, target: Seq<char>) -> Seq<char> {
    "verify failed step 5: URL '"@ + url + "' still doesn't contain /direct after navigation to "@ + target
}

pub open spec fn new_chat_msg(e: Seq<char>) -> Seq<char> {
    "verify failed step 7: start_new_chat: "@ + e
}

pub open spec fn stale_chat_msg(url: Seq<char>) -> Seq<char> {
    "verify failed step 7: still on active chat URL '"@ + url
        + "' after start_new_chat. New-chat button missed or page didn't reset."@
}

pub open spec fn modal_msg(label: Seq<char>, why: Seq<char>) -> Seq<char> {
    "MODAL/CAPTCHA detected after step '"@ + label + "'. "@ + why
        + "\nSolve the modal manually in Chrome, then re-run the session."@
}

pub open spec fn template_msg(label: Seq<char>) -> Seq<char> {
    "verify failed: could not capture template region '"@ + label + "'"@
}

pub open spec fn unexpected_msg() -> Seq<char> {
    "setup: the event does not answer the pending step"@
}

// ── The protocol ────────────────────────────────────────────────────────────

/// `s` moved on to `phase` with `report`.
pub open spec fn moved(s: SetupState, phase: SetupPhase, report: SetupReport) -> SetupState {
    SetupState { phase, mode: s.mode, model: s.model, report, sidebar_expanded: s.sidebar_expanded }
}

pub open spec fn ask(s: SetupState, phase: SetupPhase, report: SetupReport, call: SetupCall, text: Seq<char>) -> SetupOutcome {
    (moved(s, phase, report), (call, text))
}

pub open spec fn give_up(s: SetupState, msg: Seq<char>) -> SetupOutcome {
    ask(s, SetupPhase::Failed, s.report, SetupCall::Abort, msg)
}

/// After the tab is on Arena: measure the window.
pub open spec fn to_measuring(s: SetupState) -> SetupOutcome {
    ask(s, SetupPhase::Measuring, s.report, SetupCall::ReadWindow, Seq::empty())
}

/// The window is wide enough: check the sidebar.
pub open spec fn width_ok(s: SetupState) -> SetupOutcome {
    ask(s, SetupPhase::SidebarCheck, SetupReport { forced_fullscreen: true, ..s.report }, SetupCall::ReadSidebar, Seq::empty())
}

/// The sidebar is collapsed: compare with the collapsed sidebar's icon.
pub open spec fn collapsed_ok(s: SetupState) -> SetupOutcome {
    ask(s, SetupPhase::TemplateAt { template: SetupTemplate::SidebarIcon }, s.report,
        SetupCall::VerifyTemplate(SetupTemplate::SidebarIcon), Seq::empty())
}

/// Direct mode holds: compare with the Direct-mode dropdown.
pub open spec fn direct_ok(s: SetupState) -> SetupOutcome {
    ask(s, SetupPhase::TemplateAt { template: SetupTemplate::ModeDirect }, SetupReport { forced_direct_mode: true, ..s.report },
        SetupCall::VerifyTemplate(SetupTemplate::ModeDirect), Seq::empty())
}

/// Check for a modal overlay at `at`, with `report`.
pub open spec fn modal_check(s: SetupState, at: SetupCheckpoint, report: SetupReport) -> SetupOutcome {
    ask(s, SetupPhase::ModalAt { at }, report, SetupCall::CheckModal(at), Seq::empty())
}

/// After Direct mode and the sidebar: pick the model when one is asked
/// for, else start the new chat.
pub open spec fn to_model_step(s: SetupState) -> SetupOutcome {
    match s.model {
        Some(m) => ask(s, SetupPhase::ModelCheck, s.report, SetupCall::ReadTitleModel, Seq::empty()),
        None => to_new_chat(s, s.report),
    }
}

/// Step 7: start a new chat, with the report so far.
pub open spec fn to_new_chat(s: SetupState, report: SetupReport) -> SetupOutcome {
    ask(s, SetupPhase::NewChatting, report, SetupCall::StartNewChat, Seq::empty())
}

/// One step of the setup: from the pending step and what was observed, the
/// next state and action. An observation that does not answer the pending
/// step ends the setup.
pub open spec fn setup_spec(s: SetupState, e: SetupEvent) -> SetupOutcome {
    let rep = s.report;
    let target = category_spec(s.mode).0;
    match s.phase {
        SetupPhase::FocusWait { attempt } => match e {
            SetupEvent::FrontmostApp(app) => if has_substr(lower_text(app@), "chrome"@) {
                ask(s, SetupPhase::FindTab, SetupReport { browser_focused: true, ..rep }, SetupCall::FocusArenaChatTab, Seq::empty())
            } else if attempt < 3 {
                ask(s, SetupPhase::FocusWait { attempt: (attempt + 1) as u32 }, rep, SetupCall::FocusChrome, Seq::empty())
            } else {
                give_up(s, focus_failed_msg())
            },
            _ => give_up(s, unexpected_msg()),
        },
        SetupPhase::FindTab => match e {
            SetupEvent::ArenaTabFocused(found) => if found {
                modal_check(s, SetupCheckpoint::AfterArenaLoad,
                    SetupReport { reused_existing_tab: true, navigated_to_arena: true, clicked_new_chat: true, ..rep })
            } else {
                ask(s, SetupPhase::OpeningTab, rep, SetupCall::OpenNewTab, ARENA_HOME_URL@)
            },
            _ => give_up(s, unexpected_msg()),
        },
        SetupPhase::OpeningTab => match e {
            SetupEvent::Outcome(Ok(())) => modal_check(s, SetupCheckpoint::AfterArenaLoad,
                SetupReport { navigated_to_home: true, navigated_to_arena: true, clicked_new_chat: true, ..rep }),
            SetupEvent::Outcome(Err(m)) => give_up(s, open_tab_msg(m@)),
            _ => give_up(s, unexpected_msg()),
        },
        SetupPhase::Landing => match e {
            SetupEvent::Page { url, title } => if !has_substr(url@, "arena.ai"@) {
                give_up(s, not_arena_msg(url@))
            } else if !has_substr(url@, category_spec(s.mode).1) || marketing_title(lower_text(title@)) {
                ask(s, SetupPhase::Categorizing, rep, SetupCall::Navigate, target)
            } else {
                to_measuring(s)
            },
            _ => give_up(s, unexpected_msg()),
        },
        SetupPhase::Categorizing => match e {
            SetupEvent::Outcome(Ok(())) => ask(s, SetupPhase::CategoryCheck, rep, SetupCall::ReadPage, Seq::empty()),
            SetupEvent::Outcome(Err(m)) => give_up(s, navigate_msg(target, m@)),
            _ => give_up(s, unexpected_msg()),
        },
        SetupPhase::CategoryCheck => match e {
            SetupEvent::Page { url, title } => if marketing_title(lower_text(title@)) {
                give_up(s, marketing_msg(title@))
            } else {
                to_measuring(s)
            },
            _ => give_up(s, unexpected_msg()),
        },
        SetupPhase::Measuring => match e {
            SetupEvent::WindowRead(Ok((w, sw))) => if w >= sw - 8 {
                width_ok(s)
            } else {
                ask(s, SetupPhase::Fullscreening { screen: sw }, rep, SetupCall::SetFullscreen, Seq::empty())
            },
            SetupEvent::WindowRead(Err(m)) => give_up(s, m@),
            _ => give_up(s, unexpected_msg()),
        },
        SetupPhase::Fullscreening { screen } => match e {
            SetupEvent::Outcome(Ok(())) => ask(s, SetupPhase::WidthRecheck { attempt: 1, screen }, rep, SetupCall::ReadWindowWidth, Seq::empty()),
            SetupEvent::Outcome(Err(m)) => give_up(s, fullscreen_msg(m@)),
            _ => give_up(s, unexpected_msg()),
        },
        SetupPhase::WidthRecheck { attempt, screen } => match e {
            SetupEvent::WindowWidth(w) => if w >= screen - 8 {
                width_ok(s)
            } else if attempt < 4 {
                ask(s, SetupPhase::WidthRecheck { attempt: (attempt + 1) as u32, screen }, rep, SetupCall::ReadWindowWidth, Seq::empty())
            } else {
                give_up(s, width_msg(w as int, screen as int))
            },
            _ => give_up(s, unexpected_msg()),
        },
        SetupPhase::SidebarCheck => match e {
            SetupEvent::SidebarExpanded(expanded) => if expanded {
                ask(s, SetupPhase::Collapsing { attempt: 1, after_direct: false }, rep, SetupCall::ClickSidebarToggle, Seq::empty())
            } else {
                collapsed_ok(s)
            },
            _ => give_up(s, unexpected_msg()),
        },
        SetupPhase::Collapsing { attempt, after_direct } => match e {
            SetupEvent::Outcome(Ok(())) => ask(s, SetupPhase::CollapseCheck { attempt, after_direct }, rep, SetupCall::ReadSidebar, Seq::empty()),
            SetupEvent::Outcome(Err(m)) => give_up(s, toggle_msg(attempt as nat, m@)),
            _ => give_up(s, unexpected_msg()),
        },
        SetupPhase::CollapseCheck { attempt, after_direct } => match e {
            SetupEvent::SidebarExpanded(expanded) => if !expanded {
                if after_direct {
                    ask(s, SetupPhase::SidebarFinal, rep, SetupCall::ReadSidebar, Seq::empty())
                } else {
                    collapsed_ok(s)
                }
            } else if attempt < 3 {
                ask(s, SetupPhase::Collapsing { attempt: (attempt + 1) as u32, after_direct }, rep, SetupCall::ClickSidebarToggle, Seq::empty())
            } else {
                give_up(s, collapse_failed_msg())
            },
            _ => give_up(s, unexpected_msg()),
        },
        SetupPhase::DirectCheck => match e {
            SetupEvent::Url(u) => if has_substr(u@, "/direct"@) {
                direct_ok(s)
            } else {
                ask(s, SetupPhase::DirectNavigating, rep, SetupCall::Navigate, target)
            },
            _ => give_up(s, unexpected_msg()),
        },
        SetupPhase::DirectNavigating => match e {
            SetupEvent::Outcome(Ok(())) => ask(s, SetupPhase::DirectRecheck, rep, SetupCall::ReadUrl, Seq::empty()),
            SetupEvent::Outcome(Err(m)) => give_up(s, navigate_msg(target, m@)),
            _ => give_up(s, unexpected_msg()),
        },
        SetupPhase::DirectRecheck => match e {
            SetupEvent::Url(u) => if has_substr(u@, "/direct"@) {
                direct_ok(s)
            } else {
                give_up(s, direct_msg(u@, target))
            },
            _ => give_up(s, unexpected_msg()),
        },
        SetupPhase::SidebarAfterDirect => match e {
            SetupEvent::SidebarExpanded(expanded) => if expanded {
                ask(s, SetupPhase::Collapsing { attempt: 1, after_direct: true }, rep, SetupCall::ClickSidebarToggle, Seq::empty())
            } else {
                ask(s, SetupPhase::SidebarFinal, rep, SetupCall::ReadSidebar, Seq::empty())
            },
            _ => give_up(s, unexpected_msg()),
        },
        SetupPhase::SidebarFinal => match e {
            SetupEvent::SidebarExpanded(expanded) => modal_check(SetupState { sidebar_expanded: expanded, ..s }, SetupCheckpoint::AfterDirect, rep),
            _ => give_up(s, unexpected_msg()),
        },
        SetupPhase::ModelCheck => match e {
            SetupEvent::TitleModel(cur) => match s.model {
                Some(m) => if model_shown(
                    match cur {
                        Some(c) => Some(c@),
                        None => None,
                    },
                    m@,
                ) {
                    modal_check(s, SetupCheckpoint::AfterModel, SetupReport { model_selected: true, ..rep })
                } else {
                    ask(s, SetupPhase::Selecting, rep, SetupCall::SelectModel(s.sidebar_expanded), m@)
                },
                None => to_new_chat(s, rep),
            },
            _ => give_up(s, unexpected_msg()),
        },
        SetupPhase::Selecting => match e {
            SetupEvent::Outcome(Ok(())) => modal_check(s, SetupCheckpoint::AfterModel, SetupReport { model_selected: true, ..rep }),
            SetupEvent::Outcome(Err(m)) => give_up(s, m@),
            _ => give_up(s, unexpected_msg()),
        },
        SetupPhase::NewChatting => match e {
            SetupEvent::Outcome(Ok(())) => ask(s, SetupPhase::FreshCheck, rep, SetupCall::ReadUrl, Seq::empty()),
            SetupEvent::Outcome(Err(m)) => give_up(s, new_chat_msg(m@)),
            _ => give_up(s, unexpected_msg()),
        },
        SetupPhase::FreshCheck => match e {
            SetupEvent::Url(u) => if has_substr(u@, "/c/"@) {
                give_up(s, stale_chat_msg(u@))
            } else {
                ask(s, SetupPhase::TemplateAt { template: SetupTemplate::SendButton }, rep,
                    SetupCall::VerifyTemplate(SetupTemplate::SendButton), Seq::empty())
            },
            _ => give_up(s, unexpected_msg()),
        },
        SetupPhase::ModalAt { at } => match e {
            SetupEvent::Modal(Some(why)) => give_up(s, modal_msg(checkpoint_label(at), why@)),
            SetupEvent::Modal(None) => match at {
                SetupCheckpoint::AfterArenaLoad => ask(s, SetupPhase::Landing, rep, SetupCall::ReadPage, Seq::empty()),
                SetupCheckpoint::AfterSidebar => ask(s, SetupPhase::DirectCheck, rep, SetupCall::ReadUrl, Seq::empty()),
                SetupCheckpoint::AfterDirect => to_model_step(s),
                SetupCheckpoint::AfterModel => to_new_chat(s, rep),
                SetupCheckpoint::AfterNewChat => ask(s, SetupPhase::Complete, rep, SetupCall::Done(rep), Seq::empty()),
            },
            _ => give_up(s, unexpected_msg()),
        },
        SetupPhase::TemplateAt { template } => match e {
            SetupEvent::TemplateCaptured(false) => give_up(s, template_msg(template_label(template))),
            SetupEvent::TemplateCaptured(true) => match template {
                SetupTemplate::SidebarIcon => modal_check(s, SetupCheckpoint::AfterSidebar, SetupReport { sidebar_collapsed: true, ..rep }),
                SetupTemplate::ModeDirect => ask(s, SetupPhase::SidebarAfterDirect, rep, SetupCall::ReadSidebar, Seq::empty()),
                SetupTemplate::SendButton => modal_check(s, SetupCheckpoint::AfterNewChat, rep),
            },
            _ => give_up(s, unexpected_msg()),
        },
        SetupPhase::Complete | SetupPhase::Failed => give_up(s, unexpected_msg()),
    }
}

/// A report with no step done.
pub open spec fn nothing_done() -> SetupReport {
    SetupReport {
        browser_focused: false,
        navigated_to_arena: false,
        reused_existing_tab: false,
        navigated_to_home: false,
        forced_fullscreen: false,
        sidebar_collapsed: false,
        clicked_new_chat: false,
        forced_direct_mode: false,
        model_selected: false,
    }
}

/// The state a setup starts in: the first attempt to bring Chrome forward.
pub open spec fn setup_start(mode: PromptMode, model: Option<String>) -> SetupState {
    SetupState { phase: SetupPhase::FocusWait { attempt: 1 }, mode, model, report: nothing_done(), sidebar_expanded: false }
}


// ── What every run keeps ────────────────────────────────────────────────────

/// How far a phase is along the protocol: 1 for focusing Chrome up to 9
/// for the new chat, 10 when done; a failed setup is at -1.
pub open spec fn stage(p: SetupPhase) -> int {
    match p {
        SetupPhase::FocusWait { .. } => 1,
        SetupPhase::FindTab | SetupPhase::OpeningTab => 2,
        SetupPhase::Landing | SetupPhase::Categorizing | SetupPhase::CategoryCheck => 3,
        SetupPhase::Measuring | SetupPhase::Fullscreening { .. } | SetupPhase::WidthRecheck { .. } => 4,
        SetupPhase::SidebarCheck => 5,
        SetupPhase::Collapsing { after_direct, .. } | SetupPhase::CollapseCheck { after_direct, .. } => if after_direct {
            7
        } else {
            5
        },
        SetupPhase::DirectCheck | SetupPhase::DirectNavigating | SetupPhase::DirectRecheck => 6,
        SetupPhase::SidebarAfterDirect | SetupPhase::SidebarFinal => 7,
        SetupPhase::ModelCheck | SetupPhase::Selecting => 8,
        SetupPhase::NewChatting | SetupPhase::FreshCheck => 9,
        SetupPhase::ModalAt { at } => match at {
            SetupCheckpoint::AfterArenaLoad => 3,
            SetupCheckpoint::AfterSidebar => 6,
            SetupCheckpoint::AfterDirect => 7,
            SetupCheckpoint::AfterModel | SetupCheckpoint::AfterNewChat => 9,
        },
        SetupPhase::TemplateAt { template } => match template {
            SetupTemplate::SidebarIcon => 5,
            SetupTemplate::ModeDirect => 7,
            SetupTemplate::SendButton => 9,
        },
        SetupPhase::Complete => 10,
        SetupPhase::Failed => -1,
    }
}

/// The report records every step the setup has passed, and the model only
/// once it was picked (or found already shown).
pub open spec fn setup_wf(s: SetupState) -> bool {
    let k = stage(s.phase);
    &&& k >= 2 ==> s.report.browser_focused
    &&& k >= 3 ==> s.report.navigated_to_arena && s.report.clicked_new_chat
    &&& k >= 5 ==> s.report.forced_fullscreen
    &&& k >= 6 ==> s.report.sidebar_collapsed
    &&& k >= 7 ==> s.report.forced_direct_mode
    &&& k >= 9 ==> s.report.model_selected == s.model.is_some()
    &&& 0 <= k <= 8 ==> !s.report.model_selected
    &&& s.phase is Selecting ==> s.model is Some
}

/// A new setup satisfies the invariant.
pub proof fn law_setup_starts_wf(mode: PromptMode, model: Option<String>)
    ensures
        setup_wf(setup_start(mode, model)),
{
}

/// Every step keeps the invariant. The setup finishes only from the last
/// modal check, which follows the send-button comparison, which in turn
/// is reached only from the check after the new chat on a URL that is no
/// longer a chat (`/c/`); and then its report shows Chrome focused, Arena
/// reached, the window full width, the sidebar collapsed, Direct mode, and
/// the model picked exactly when one was asked for.
pub proof fn law_setup_step(s: SetupState, e: SetupEvent)
    requires
        setup_wf(s),
    ensures
        setup_wf(setup_spec(s, e).0),
        setup_spec(s, e).0.model == s.model,
        setup_spec(s, e).1.0 matches SetupCall::Done(rep) ==> {
            &&& s.phase == (SetupPhase::ModalAt { at: SetupCheckpoint::AfterNewChat })
            &&& e matches SetupEvent::Modal(None)
            &&& rep == setup_spec(s, e).0.report
            &&& rep.browser_focused && rep.navigated_to_arena && rep.forced_fullscreen
            &&& rep.sidebar_collapsed && rep.forced_direct_mode
            &&& rep.model_selected == s.model.is_some()
        },
        setup_spec(s, e).0.phase == (SetupPhase::ModalAt { at: SetupCheckpoint::AfterNewChat })
            && s.phase != setup_spec(s, e).0.phase ==> s.phase == (SetupPhase::TemplateAt { template: SetupTemplate::SendButton }),
        setup_spec(s, e).0.phase == (SetupPhase::TemplateAt { template: SetupTemplate::SendButton })
            && s.phase != setup_spec(s, e).0.phase ==> (s.phase == SetupPhase::FreshCheck
            && (e matches SetupEvent::Url(u) && !has_substr(u@, "/c/"@))),
{
    match s.phase {
        SetupPhase::FocusWait { .. } => {},
        SetupPhase::FindTab | SetupPhase::OpeningTab => {},
        SetupPhase::Landing | SetupPhase::Categorizing | SetupPhase::CategoryCheck => {},
        SetupPhase::Measuring | SetupPhase::Fullscreening { .. } | SetupPhase::WidthRecheck { .. } => {},
        SetupPhase::SidebarCheck | SetupPhase::Collapsing { .. } | SetupPhase::CollapseCheck { .. } => {},
        SetupPhase::DirectCheck | SetupPhase::DirectNavigating | SetupPhase::DirectRecheck => {},
        SetupPhase::SidebarAfterDirect | SetupPhase::SidebarFinal => {},
        SetupPhase::ModelCheck | SetupPhase::Selecting => {},
        SetupPhase::NewChatting | SetupPhase::FreshCheck => {},
        SetupPhase::ModalAt { .. } | SetupPhase::TemplateAt { .. } => {},
        SetupPhase::Complete | SetupPhase::Failed => {},
    }
}

pub proof fn law_setup_focus_attempts(s: SetupState, e: SetupEvent)
    requires
        s.phase is FocusWait,
    ensures
        ({
            let call = setup_spec(s, e).1.0;
            call is FocusChrome || call is FocusArenaChatTab || call is Abort
        }),
        s.phase == (SetupPhase::FocusWait { attempt: 3 }) ==> (e matches SetupEvent::FrontmostApp(app)
            && !has_substr(lower_text(app@), "chrome"@) ==> setup_spec(s, e).1 == (SetupCall::Abort, focus_failed_msg())),
{
}

// ── Running it ──────────────────────────────────────────────────────────────

fn keep_model(m: &Option<String>) -> (r: Option<String>)
    ensures
        r == *m,
{
    match m {
        Some(x) => Some(x.clone()),
        None => None,
    }
}

fn moved_to(s: &SetupState, phase: SetupPhase, report: SetupReport) -> (r: SetupState)
    ensures
        r == moved(*s, phase, report),
{
    SetupState { phase, mode: s.mode, model: keep_model(&s.model), report, sidebar_expanded: s.sidebar_expanded }
}

fn give_up_with(s: &SetupState, msg: String) -> (r: (SetupState, SetupAction))
    ensures
        (r.0, action_view(r.1)) == give_up(*s, msg@),
{
    (moved_to(s, SetupPhase::Failed, s.report), SetupAction::Abort(msg))
}

fn unexpected(s: &SetupState) -> (r: (SetupState, SetupAction))
    ensures
        (r.0, action_view(r.1)) == give_up(*s, unexpected_msg()),
{
    give_up_with(s, text("setup: the event does not answer the pending step"))
}

fn text(a: &str) -> (r: String)
    ensures
        r@ == a@,
{
    let mut r = String::new();
    r.append(a);
    r
}

fn text2(a: &str, b: &str) -> (r: String)
    ensures
        r@ == a@ + b@,
{
    let mut r = text(a);
    r.append(b);
    r
}

fn text3(a: &str, b: &str, c: &str) -> (r: String)
    ensures
        r@ == a@ + b@ + c@,
{
    let mut r = text2(a, b);
    r.append(c);
    r
}

/// Where a setup in `mode`, picking `model` when given, begins: bring
/// Chrome to the front.
pub fn setup_begin(mode: PromptMode, model: Option<String>) -> (r: (SetupState, SetupAction))
    ensures
        r.0 == setup_start(mode, model),
        action_view(r.1) == (SetupCall::FocusChrome, Seq::<char>::empty()),
{
    let report = SetupReport::default();
    (SetupState { phase: SetupPhase::FocusWait { attempt: 1 }, mode, model, report, sidebar_expanded: false }, SetupAction::FocusChrome)
}

fn step_focus(state: &SetupState, event: SetupEvent) -> (r: (SetupState, SetupAction))
    requires
        state.phase is FocusWait,
    ensures
        (r.0, action_view(r.1)) == setup_spec(*state, event),
{
    let rep = state.report;
    match state.phase {
        SetupPhase::FocusWait { attempt } => match event {
            SetupEvent::FrontmostApp(app) => if frontmost_is_chrome(app.as_str()) {
                (moved_to(state, SetupPhase::FindTab, SetupReport { browser_focused: true, ..rep }), SetupAction::FocusArenaChatTab)
            } else if attempt < 3 {
                (moved_to(state, SetupPhase::FocusWait { attempt: attempt + 1 }, rep), SetupAction::FocusChrome)
            } else {
                give_up_with(state, text("verify failed step 1: Chrome did not become frontmost after 3 attempts"))
            },
            _ => unexpected(state),
        },
        _ => unexpected(state),
    }
}

fn step_tab(state: &SetupState, event: SetupEvent) -> (r: (SetupState, SetupAction))
    requires
        state.phase is FindTab || state.phase is OpeningTab,
    ensures
        (r.0, action_view(r.1)) == setup_spec(*state, event),
{
    let rep = state.report;
    match state.phase {
        SetupPhase::FindTab => match event {
            SetupEvent::ArenaTabFocused(found) => if found {
                (moved_to(state, SetupPhase::ModalAt { at: SetupCheckpoint::AfterArenaLoad },
                    SetupReport { reused_existing_tab: true, navigated_to_arena: true, clicked_new_chat: true, ..rep }),
                    SetupAction::CheckModal(SetupCheckpoint::AfterArenaLoad))
            } else {
                (moved_to(state, SetupPhase::OpeningTab, rep), SetupAction::OpenNewTab(text(ARENA_HOME_URL)))
            },
            _ => unexpected(state),
        },
        SetupPhase::OpeningTab => match event {
            SetupEvent::Outcome(Ok(())) => (moved_to(state, SetupPhase::ModalAt { at: SetupCheckpoint::AfterArenaLoad },
                SetupReport { navigated_to_home: true, navigated_to_arena: true, clicked_new_chat: true, ..rep }),
                SetupAction::CheckModal(SetupCheckpoint::AfterArenaLoad)),
            SetupEvent::Outcome(Err(m)) => give_up_with(state, text2("open_new_browser_tab: ", m.as_str())),
            _ => unexpected(state),
        },
        _ => unexpected(state),
    }
}

fn step_landing(state: &SetupState, event: SetupEvent) -> (r: (SetupState, SetupAction))
    requires
        state.phase is Landing || state.phase is Categorizing || state.phase is CategoryCheck,
    ensures
        (r.0, action_view(r.1)) == setup_spec(*state, event),
{
    let rep = state.report;
    let (target, _) = category_target(state.mode);
    match state.phase {
        SetupPhase::Landing => match event {
            SetupEvent::Page { url, title } => if !on_arena(url.as_str()) {
                give_up_with(state, text3("verify failed step 2: URL='", url.as_str(), "' is not arena.ai"))
            } else if needs_category_navigation(url.as_str(), title.as_str(), state.mode) {
                (moved_to(state, SetupPhase::Categorizing, rep), SetupAction::Navigate(text(target)))
            } else {
                (moved_to(state, SetupPhase::Measuring, rep), SetupAction::ReadWindow)
            },
            _ => unexpected(state),
        },
        SetupPhase::Categorizing => match event {
            SetupEvent::Outcome(Ok(())) => (moved_to(state, SetupPhase::CategoryCheck, rep), SetupAction::ReadPage),
            SetupEvent::Outcome(Err(m)) => {
                let mut msg = text3("navigate to ", target, ": ");
                msg.append(m.as_str());
                give_up_with(state, msg)
            },
            _ => unexpected(state),
        },
        SetupPhase::CategoryCheck => match event {
            SetupEvent::Page { url, title } => if is_marketing_title(title.as_str()) {
                give_up_with(state, text3(
                    "verify failed step 2: still on marketing page after redirect (title '",
                    title.as_str(),
                    "'). Log in at https://arena.ai then re-run.",
                ))
            } else {
                (moved_to(state, SetupPhase::Measuring, rep), SetupAction::ReadWindow)
            },
            _ => unexpected(state),
        },
        _ => unexpected(state),
    }
}

fn step_window(state: &SetupState, event: SetupEvent) -> (r: (SetupState, SetupAction))
    requires
        state.phase is Measuring || state.phase is Fullscreening || state.phase is WidthRecheck,
    ensures
        (r.0, action_view(r.1)) == setup_spec(*state, event),
{
    let rep = state.report;
    match state.phase {
        SetupPhase::Measuring => match event {
            SetupEvent::WindowRead(Ok((w, sw))) => if window_fills_width(w, sw) {
                (moved_to(state, SetupPhase::SidebarCheck, SetupReport { forced_fullscreen: true, ..rep }), SetupAction::ReadSidebar)
            } else {
                (moved_to(state, SetupPhase::Fullscreening { screen: sw }, rep), SetupAction::SetFullscreen)
            },
            SetupEvent::WindowRead(Err(m)) => give_up_with(state, m),
            _ => unexpected(state),
        },
        SetupPhase::Fullscreening { screen } => match event {
            SetupEvent::Outcome(Ok(())) => (moved_to(state, SetupPhase::WidthRecheck { attempt: 1, screen }, rep), SetupAction::ReadWindowWidth),
            SetupEvent::Outcome(Err(m)) => give_up_with(state, text2("set_chrome_fullscreen: ", m.as_str())),
            _ => unexpected(state),
        },
        SetupPhase::WidthRecheck { attempt, screen } => match event {
            SetupEvent::WindowWidth(w) => if window_fills_width(w, screen) {
                (moved_to(state, SetupPhase::SidebarCheck, SetupReport { forced_fullscreen: true, ..rep }), SetupAction::ReadSidebar)
            } else if attempt < 4 {
                (moved_to(state, SetupPhase::WidthRecheck { attempt: attempt + 1, screen }, rep), SetupAction::ReadWindowWidth)
            } else {
                let mut msg = text("verify failed step 3: window width ");
                push_int(&mut msg, w);
                msg.append(" still < screen width ");
                push_int(&mut msg, screen);
                msg.append(" after fullscreen toggle");
                give_up_with(state, msg)
            },
            _ => unexpected(state),
        },
        _ => unexpected(state),
    }
}

fn step_sidebar(state: &SetupState, event: SetupEvent) -> (r: (SetupState, SetupAction))
    requires
        state.phase is SidebarCheck || state.phase is Collapsing || state.phase is CollapseCheck || state.phase is SidebarAfterDirect || state.phase is SidebarFinal,
    ensures
        (r.0, action_view(r.1)) == setup_spec(*state, event),
{
    let rep = state.report;
    match state.phase {
        SetupPhase::SidebarCheck => match event {
            SetupEvent::SidebarExpanded(expanded) => if expanded {
                (moved_to(state, SetupPhase::Collapsing { attempt: 1, after_direct: false }, rep), SetupAction::ClickSidebarToggle)
            } else {
                (moved_to(state, SetupPhase::TemplateAt { template: SetupTemplate::SidebarIcon }, rep),
                    SetupAction::VerifyTemplate(SetupTemplate::SidebarIcon))
            },
            _ => unexpected(state),
        },
        SetupPhase::Collapsing { attempt, after_direct } => match event {
            SetupEvent::Outcome(Ok(())) => (moved_to(state, SetupPhase::CollapseCheck { attempt, after_direct }, rep), SetupAction::ReadSidebar),
            SetupEvent::Outcome(Err(m)) => {
                let mut msg = text("sidebar toggle click attempt ");
                push_decimal(&mut msg, attempt as u64);
                msg.append(": ");
                msg.append(m.as_str());
                give_up_with(state, msg)
            },
            _ => unexpected(state),
        },
        SetupPhase::CollapseCheck { attempt, after_direct } => match event {
            SetupEvent::SidebarExpanded(expanded) => if !expanded {
                if after_direct {
                    (moved_to(state, SetupPhase::SidebarFinal, rep), SetupAction::ReadSidebar)
                } else {
                    (moved_to(state, SetupPhase::TemplateAt { template: SetupTemplate::SidebarIcon }, rep),
                    SetupAction::VerifyTemplate(SetupTemplate::SidebarIcon))
                }
            } else if attempt < 3 {
                (moved_to(state, SetupPhase::Collapsing { attempt: attempt + 1, after_direct }, rep), SetupAction::ClickSidebarToggle)
            } else {
                give_up_with(state, text("verify failed step 4: sidebar still expanded after 3 collapse attempts"))
            },
            _ => unexpected(state),
        },
        SetupPhase::SidebarAfterDirect => match event {
            SetupEvent::SidebarExpanded(expanded) => if expanded {
                (moved_to(state, SetupPhase::Collapsing { attempt: 1, after_direct: true }, rep), SetupAction::ClickSidebarToggle)
            } else {
                (moved_to(state, SetupPhase::SidebarFinal, rep), SetupAction::ReadSidebar)
            },
            _ => unexpected(state),
        },
        SetupPhase::SidebarFinal => match event {
            SetupEvent::SidebarExpanded(expanded) => {
                let model = keep_model(&state.model);
                (SetupState { phase: SetupPhase::ModalAt { at: SetupCheckpoint::AfterDirect }, mode: state.mode, model, report: rep, sidebar_expanded: expanded },
                    SetupAction::CheckModal(SetupCheckpoint::AfterDirect))
            },
            _ => unexpected(state),
        },
        _ => unexpected(state),
    }
}

fn step_direct(state: &SetupState, event: SetupEvent) -> (r: (SetupState, SetupAction))
    requires
        state.phase is DirectCheck || state.phase is DirectNavigating || state.phase is DirectRecheck,
    ensures
        (r.0, action_view(r.1)) == setup_spec(*state, event),
{
    let rep = state.report;
    let (target, _) = category_target(state.mode);
    match state.phase {
        SetupPhase::DirectCheck => match event {
            SetupEvent::Url(u) => if in_direct_mode(u.as_str()) {
                (moved_to(state, SetupPhase::TemplateAt { template: SetupTemplate::ModeDirect }, SetupReport { forced_direct_mode: true, ..rep }),
                    SetupAction::VerifyTemplate(SetupTemplate::ModeDirect))
            } else {
                (moved_to(state, SetupPhase::DirectNavigating, rep), SetupAction::Navigate(text(target)))
            },
            _ => unexpected(state),
        },
        SetupPhase::DirectNavigating => match event {
            SetupEvent::Outcome(Ok(())) => (moved_to(state, SetupPhase::DirectRecheck, rep), SetupAction::ReadUrl),
            SetupEvent::Outcome(Err(m)) => {
                let mut msg = text3("navigate to ", target, ": ");
                msg.append(m.as_str());
                give_up_with(state, msg)
            },
            _ => unexpected(state),
        },
        SetupPhase::DirectRecheck => match event {
            SetupEvent::Url(u) => if in_direct_mode(u.as_str()) {
                (moved_to(state, SetupPhase::TemplateAt { template: SetupTemplate::ModeDirect }, SetupReport { forced_direct_mode: true, ..rep }),
                    SetupAction::VerifyTemplate(SetupTemplate::ModeDirect))
            } else {
                let mut msg = text3("verify failed step 5: URL '", u.as_str(), "' still doesn't contain /direct after navigation to ");
                msg.append(target);
                give_up_with(state, msg)
            },
            _ => unexpected(state),
        },
        _ => unexpected(state),
    }
}

fn step_model(state: &SetupState, event: SetupEvent) -> (r: (SetupState, SetupAction))
    requires
        state.phase is ModelCheck || state.phase is Selecting,
    ensures
        (r.0, action_view(r.1)) == setup_spec(*state, event),
{
    let rep = state.report;
    match state.phase {
        SetupPhase::ModelCheck => match event {
            SetupEvent::TitleModel(cur) => match &state.model {
                Some(m) => if model_already_selected(&cur, m.as_str()) {
                    (moved_to(state, SetupPhase::ModalAt { at: SetupCheckpoint::AfterModel }, SetupReport { model_selected: true, ..rep }),
                    SetupAction::CheckModal(SetupCheckpoint::AfterModel))
                } else {
                    (moved_to(state, SetupPhase::Selecting, rep),
                        SetupAction::SelectModel { model: m.clone(), sidebar_expanded: state.sidebar_expanded })
                },
                None => (moved_to(state, SetupPhase::NewChatting, rep), SetupAction::StartNewChat),
            },
            _ => unexpected(state),
        },
        SetupPhase::Selecting => match event {
            SetupEvent::Outcome(Ok(())) => (moved_to(state, SetupPhase::ModalAt { at: SetupCheckpoint::AfterModel }, SetupReport { model_selected: true, ..rep }),
                    SetupAction::CheckModal(SetupCheckpoint::AfterModel)),
            SetupEvent::Outcome(Err(m)) => give_up_with(state, m),
            _ => unexpected(state),
        },
        _ => unexpected(state),
    }
}

fn step_chat(state: &SetupState, event: SetupEvent) -> (r: (SetupState, SetupAction))
    requires
        state.phase is NewChatting || state.phase is FreshCheck,
    ensures
        (r.0, action_view(r.1)) == setup_spec(*state, event),
{
    let rep = state.report;
    match state.phase {
        SetupPhase::NewChatting => match event {
            SetupEvent::Outcome(Ok(())) => (moved_to(state, SetupPhase::FreshCheck, rep), SetupAction::ReadUrl),
            SetupEvent::Outcome(Err(m)) => give_up_with(state, text2("verify failed step 7: start_new_chat: ", m.as_str())),
            _ => unexpected(state),
        },
        SetupPhase::FreshCheck => match event {
            SetupEvent::Url(u) => if str_contains(u.as_str(), "/c/") {
                give_up_with(state, text3(
                    "verify failed step 7: still on active chat URL '",
                    u.as_str(),
                    "' after start_new_chat. New-chat button missed or page didn't reset.",
                ))
            } else {
                (moved_to(state, SetupPhase::TemplateAt { template: SetupTemplate::SendButton }, rep),
                    SetupAction::VerifyTemplate(SetupTemplate::SendButton))
            },
            _ => unexpected(state),
        },

        _ => unexpected(state),
    }
}

fn step_checks(state: &SetupState, event: SetupEvent) -> (r: (SetupState, SetupAction))
    requires
        state.phase is ModalAt || state.phase is TemplateAt,
    ensures
        (r.0, action_view(r.1)) == setup_spec(*state, event),
{
    let rep = state.report;
    match state.phase {
        SetupPhase::ModalAt { at } => match event {
            SetupEvent::Modal(Some(why)) => {
                let mut msg = text3("MODAL/CAPTCHA detected after step '", checkpoint_name(at), "'. ");
                msg.append(why.as_str());
                msg.append("\nSolve the modal manually in Chrome, then re-run the session.");
                give_up_with(state, msg)
            },
            SetupEvent::Modal(None) => match at {
                SetupCheckpoint::AfterArenaLoad => (moved_to(state, SetupPhase::Landing, rep), SetupAction::ReadPage),
                SetupCheckpoint::AfterSidebar => (moved_to(state, SetupPhase::DirectCheck, rep), SetupAction::ReadUrl),
                SetupCheckpoint::AfterDirect => match &state.model {
                    Some(_) => (moved_to(state, SetupPhase::ModelCheck, rep), SetupAction::ReadTitleModel),
                    None => (moved_to(state, SetupPhase::NewChatting, rep), SetupAction::StartNewChat),
                },
                SetupCheckpoint::AfterModel => (moved_to(state, SetupPhase::NewChatting, rep), SetupAction::StartNewChat),
                SetupCheckpoint::AfterNewChat => (moved_to(state, SetupPhase::Complete, rep), SetupAction::Done(rep)),
            },
            _ => unexpected(state),
        },
        SetupPhase::TemplateAt { template } => match event {
            SetupEvent::TemplateCaptured(false) => give_up_with(state, text3("verify failed: could not capture template region '", template_name(template), "'")),
            SetupEvent::TemplateCaptured(true) => match template {
                SetupTemplate::SidebarIcon => (moved_to(state, SetupPhase::ModalAt { at: SetupCheckpoint::AfterSidebar }, SetupReport { sidebar_collapsed: true, ..rep }),
                    SetupAction::CheckModal(SetupCheckpoint::AfterSidebar)),
                SetupTemplate::ModeDirect => (moved_to(state, SetupPhase::SidebarAfterDirect, rep), SetupAction::ReadSidebar),
                SetupTemplate::SendButton => (moved_to(state, SetupPhase::ModalAt { at: SetupCheckpoint::AfterNewChat }, rep),
                    SetupAction::CheckModal(SetupCheckpoint::AfterNewChat)),
            },
            _ => unexpected(state),
        },
        _ => unexpected(state),
    }
}

/// One step of the setup: what the caller observed after the last action
/// decides the next state and action.
pub fn setup_next(state: &SetupState, event: SetupEvent) -> (r: (SetupState, SetupAction))
    ensures
        (r.0, action_view(r.1)) == setup_spec(*state, event),
{
    match state.phase {
        SetupPhase::FocusWait { .. } => step_focus(state, event),
        SetupPhase::FindTab | SetupPhase::OpeningTab => step_tab(state, event),
        SetupPhase::Landing | SetupPhase::Categorizing | SetupPhase::CategoryCheck => step_landing(state, event),
        SetupPhase::Measuring | SetupPhase::Fullscreening { .. } | SetupPhase::WidthRecheck { .. } => step_window(state, event),
        SetupPhase::SidebarCheck | SetupPhase::Collapsing { .. } | SetupPhase::CollapseCheck { .. } | SetupPhase::SidebarAfterDirect
        | SetupPhase::SidebarFinal => step_sidebar(state, event),
        SetupPhase::DirectCheck | SetupPhase::DirectNavigating | SetupPhase::DirectRecheck => step_direct(state, event),
        SetupPhase::ModelCheck | SetupPhase::Selecting => step_model(state, event),
        SetupPhase::NewChatting | SetupPhase::FreshCheck => step_chat(state, event),
        SetupPhase::ModalAt { .. } | SetupPhase::TemplateAt { .. } => step_checks(state, event),
        SetupPhase::Complete | SetupPhase::Failed => unexpected(state),
    }
}

} // verus!
