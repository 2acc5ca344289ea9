//! DeepSeek's one-shot session setup as a checked protocol: bring Chrome
//! forward, land on DeepSeek, fill the screen's width, start a clean chat
//! (reloading to drop unsent uploads), check the composer is empty, and set
//! the mode and the two toggles. The caller performs each requested action
//! and answers with what it observed; `deepseek_setup_next` decides.
use vstd::prelude::*;
use crate::arena::setup_steps::{frontmost_is_chrome, window_fills_width};
use crate::deepseek::{DEEPSEEK_HOME_URL, DEEPSEEK_URL_SUBSTR};
use crate::deepseek::session_setup::SetupReport;
use crate::session::DeepSeekModelMode;
use crate::text::{has_substr, int_text, lower_text, push_int, str_contains};

verus! {

/// Where the setup stands: which observation it waits for.
#[derive(Clone, Copy, Debug, PartialEq, Eq, Structural)]
pub enum DeepSeekSetupPhase {
    FocusWait { attempt: u32 },
    FindTab,
    OpeningTab,
    UrlCheck,
    Navigating,
    UrlRecheck,
    Measuring,
    Fullscreening { screen: i32 },
    WidthRecheck { screen: i32 },
    Tidying,
    NewChat,
    Reloading,
    NewChatAgain,
    ChipCheck,
    SelectingModel,
    DeepThinking,
    SmartSearch,
    Complete,
    Failed,
}

/// The setup's state: the step, what it was configured with, and what took
/// effect so far.
#[derive(Clone, Copy)]
pub struct DeepSeekSetupState {
    pub phase: DeepSeekSetupPhase,
    pub model_mode: DeepSeekModelMode,
    pub deep_thinking: bool,
    pub smart_search: bool,
    pub report: SetupReport,
}

/// What the caller observed after performing the requested action.
pub enum DeepSeekSetupEvent {
    /// The name of the frontmost application.
    FrontmostApp(String),
    /// Whether a DeepSeek tab was found and focused, or why the search failed.
    TabFocused(Result<bool, String>),
    /// How an action that can fail went.
    Outcome(Result<(), String>),
    /// The active tab's URL.
    Url(String),
    /// Chrome's window width and the screen width, or why they could not be read.
    WindowRead(Result<(i32, i32), String>),
    /// Chrome's window width, or why it could not be read.
    WindowWidth(Result<i32, String>),
    /// Whether an attachment chip shows in the composer.
    Attachment(bool),
}

/// What the caller should do next.
pub enum DeepSeekSetupAction {
    /// Bring Chrome to the front, then report the frontmost app.
    FocusChrome,
    /// Focus a tab on DeepSeek, then report whether one was found.
    FocusDeepSeekTab,
    /// Open a new tab on this URL.
    OpenNewTab(String),
    /// Send the current tab to this URL (a reload when it is already there).
    Navigate(String),
    /// Report the tab's URL.
    ReadUrl,
    /// Report Chrome's window width and the screen width.
    ReadWindow,
    /// Put Chrome in fullscreen.
    SetFullscreen,
    /// Report Chrome's window width.
    ReadWindowWidth,
    /// Press Escape, close a leftover document panel and open the history
    /// sidebar; none of this can fail the setup.
    Tidy,
    /// Start a new chat.
    StartNewChat,
    /// Report whether an attachment chip shows.
    CheckAttachment,
    /// Select this answer mode.
    SelectModel(DeepSeekModelMode),
    /// Turn deep thinking on or off.
    SetDeepThinking(bool),
    /// Turn smart search on or off.
    SetSmartSearch(bool),
    /// Setup succeeded.
    Done(SetupReport),
    /// Setup gave up for this reason.
    Abort(String),
}

/// An action with its text taken out.
pub enum DeepSeekSetupCall {
    FocusChrome,
    FocusDeepSeekTab,
    OpenNewTab,
    Navigate,
    ReadUrl,
    ReadWindow,
    SetFullscreen,
    ReadWindowWidth,
    Tidy,
    StartNewChat,
    CheckAttachment,
    SelectModel(DeepSeekModelMode),
    SetDeepThinking(bool),
    SetSmartSearch(bool),
    Done(SetupReport),
    Abort,
}

/// An action as its kind and its text (a URL or a message).
pub open spec fn ds_action_view(a: DeepSeekSetupAction) -> (DeepSeekSetupCall, Seq<char>) {
    match a {
        DeepSeekSetupAction::FocusChrome => (DeepSeekSetupCall::FocusChrome, Seq::empty()),
        DeepSeekSetupAction::FocusDeepSeekTab => (DeepSeekSetupCall::FocusDeepSeekTab, Seq::empty()),
        DeepSeekSetupAction::OpenNewTab(u) => (DeepSeekSetupCall::OpenNewTab, u@),
        DeepSeekSetupAction::Navigate(u) => (DeepSeekSetupCall::Navigate, u@),
        DeepSeekSetupAction::ReadUrl => (DeepSeekSetupCall::ReadUrl, Seq::empty()),
        DeepSeekSetupAction::ReadWindow => (DeepSeekSetupCall::ReadWindow, Seq::empty()),
        DeepSeekSetupAction::SetFullscreen => (DeepSeekSetupCall::SetFullscreen, Seq::empty()),
        DeepSeekSetupAction::ReadWindowWidth => (DeepSeekSetupCall::ReadWindowWidth, Seq::empty()),
        DeepSeekSetupAction::Tidy => (DeepSeekSetupCall::Tidy, Seq::empty()),
        DeepSeekSetupAction::StartNewChat => (DeepSeekSetupCall::StartNewChat, Seq::empty()),
        DeepSeekSetupAction::CheckAttachment => (DeepSeekSetupCall::CheckAttachment, Seq::empty()),
        DeepSeekSetupAction::SelectModel(m) => (DeepSeekSetupCall::SelectModel(m), Seq::empty()),
        DeepSeekSetupAction::SetDeepThinking(b) => (DeepSeekSetupCall::SetDeepThinking(b), Seq::empty()),
        DeepSeekSetupAction::SetSmartSearch(b) => (DeepSeekSetupCall::SetSmartSearch(b), Seq::empty()),
        DeepSeekSetupAction::Done(r) => (DeepSeekSetupCall::Done(r), Seq::empty()),
        DeepSeekSetupAction::Abort(m) => (DeepSeekSetupCall::Abort, m@),
    }
}

pub type DeepSeekSetupOutcome = (DeepSeekSetupState, (DeepSeekSetupCall, Seq<char>));

// ── Messages ────────────────────────────────────────────────────────────────

pub open spec fn ds_focus_failed_msg() -> Seq<char> {
    "DeepSeek setup failed: Chrome did not become frontmost"@
}

pub open spec fn ds_not_deepseek_msg(url: Seq<char>) -> Seq<char> {
    "DeepSeek setup failed: current URL '"@ + url + "' is not DeepSeek"@
}

pub open spec fn ds_width_msg(width: int, screen: int) -> Seq<char> {
    "DeepSeek setup failed: Chrome width "@ + int_text(width) + " < screen width "@ + int_text(screen)
}

pub open spec fn ds_chip_msg() -> Seq<char> {
    "DeepSeek setup failed: chip still present after reload — composer not empty"@
}

pub open spec fn ds_unexpected_msg() -> Seq<char> {
    "setup: the event does not answer the pending step"@
}

// ── The protocol ────────────────────────────────────────────────────────────

pub open spec fn ds_ask(s: DeepSeekSetupState, phase: DeepSeekSetupPhase, report: SetupReport, call: DeepSeekSetupCall, text: Seq<char>) -> DeepSeekSetupOutcome {
    (DeepSeekSetupState { phase, report, ..s }, (call, text))
}

pub open spec fn ds_give_up(s: DeepSeekSetupState, msg: Seq<char>) -> DeepSeekSetupOutcome {
    ds_ask(s, DeepSeekSetupPhase::Failed, s.report, DeepSeekSetupCall::Abort, msg)
}

/// On DeepSeek: measure the window.
pub open spec fn ds_landed(s: DeepSeekSetupState) -> DeepSeekSetupOutcome {
    ds_ask(s, DeepSeekSetupPhase::Measuring, SetupReport { navigated_to_deepseek: true, ..s.report }, DeepSeekSetupCall::ReadWindow, Seq::empty())
}

/// Full width: tidy the page.
pub open spec fn ds_wide(s: DeepSeekSetupState) -> DeepSeekSetupOutcome {
    ds_ask(s, DeepSeekSetupPhase::Tidying, SetupReport { forced_fullscreen: true, ..s.report }, DeepSeekSetupCall::Tidy, Seq::empty())
}

/// One step of the setup. An observation that does not answer the pending
/// step ends it.
pub open spec fn ds_setup_spec(s: DeepSeekSetupState, e: DeepSeekSetupEvent) -> DeepSeekSetupOutcome {
    let rep = s.report;
    let home = DEEPSEEK_HOME_URL@;
    match s.phase {
        DeepSeekSetupPhase::FocusWait { attempt } => match e {
            DeepSeekSetupEvent::FrontmostApp(app) => if has_substr(lower_text(app@), "chrome"@) {
                ds_ask(s, DeepSeekSetupPhase::FindTab, SetupReport { browser_focused: true, ..rep }, DeepSeekSetupCall::FocusDeepSeekTab, Seq::empty())
            } else if attempt < 3 {
                ds_ask(s, DeepSeekSetupPhase::FocusWait { attempt: (attempt + 1) as u32 }, rep, DeepSeekSetupCall::FocusChrome, Seq::empty())
            } else {
                ds_give_up(s, ds_focus_failed_msg())
            },
            _ => ds_give_up(s, ds_unexpected_msg()),
        },
        DeepSeekSetupPhase::FindTab => match e {
            DeepSeekSetupEvent::TabFocused(Ok(true)) => ds_ask(s, DeepSeekSetupPhase::UrlCheck, SetupReport { reused_existing_tab: true, ..rep }, DeepSeekSetupCall::ReadUrl, Seq::empty()),
            DeepSeekSetupEvent::TabFocused(_) => ds_ask(s, DeepSeekSetupPhase::OpeningTab, rep, DeepSeekSetupCall::OpenNewTab, home),
            _ => ds_give_up(s, ds_unexpected_msg()),
        },
        DeepSeekSetupPhase::OpeningTab => match e {
            DeepSeekSetupEvent::Outcome(Ok(())) => ds_ask(s, DeepSeekSetupPhase::UrlCheck, rep, DeepSeekSetupCall::ReadUrl, Seq::empty()),
            DeepSeekSetupEvent::Outcome(Err(m)) => ds_give_up(s, "open_new_browser_tab: "@ + m@),
            _ => ds_give_up(s, ds_unexpected_msg()),
        },
        DeepSeekSetupPhase::UrlCheck => match e {
            DeepSeekSetupEvent::Url(u) => if has_substr(u@, DEEPSEEK_URL_SUBSTR@) {
                ds_landed(s)
            } else {
                ds_ask(s, DeepSeekSetupPhase::Navigating, rep, DeepSeekSetupCall::Navigate, home)
            },
            _ => ds_give_up(s, ds_unexpected_msg()),
        },
        DeepSeekSetupPhase::Navigating => match e {
            DeepSeekSetupEvent::Outcome(Ok(())) => ds_ask(s, DeepSeekSetupPhase::UrlRecheck, rep, DeepSeekSetupCall::ReadUrl, Seq::empty()),
            DeepSeekSetupEvent::Outcome(Err(m)) => ds_give_up(s, "navigate_current_tab: "@ + m@),
            _ => ds_give_up(s, ds_unexpected_msg()),
        },
        DeepSeekSetupPhase::UrlRecheck => match e {
            DeepSeekSetupEvent::Url(u) => if has_substr(u@, DEEPSEEK_URL_SUBSTR@) {
                ds_landed(s)
            } else {
                ds_give_up(s, ds_not_deepseek_msg(u@))
            },
            _ => ds_give_up(s, ds_unexpected_msg()),
        },
        DeepSeekSetupPhase::Measuring => match e {
            DeepSeekSetupEvent::WindowRead(Ok((w, sw))) => if w >= sw - 8 {
                ds_wide(s)
            } else {
                ds_ask(s, DeepSeekSetupPhase::Fullscreening { screen: sw }, rep, DeepSeekSetupCall::SetFullscreen, Seq::empty())
            },
            DeepSeekSetupEvent::WindowRead(Err(m)) => ds_give_up(s, m@),
            _ => ds_give_up(s, ds_unexpected_msg()),
        },
        DeepSeekSetupPhase::Fullscreening { screen } => match e {
            DeepSeekSetupEvent::Outcome(Ok(())) => ds_ask(s, DeepSeekSetupPhase::WidthRecheck { screen }, rep, DeepSeekSetupCall::ReadWindowWidth, Seq::empty()),
            DeepSeekSetupEvent::Outcome(Err(m)) => ds_give_up(s, "set_chrome_fullscreen: "@ + m@),
            _ => ds_give_up(s, ds_unexpected_msg()),
        },
        DeepSeekSetupPhase::WidthRecheck { screen } => match e {
            DeepSeekSetupEvent::WindowWidth(Ok(w)) => if w >= screen - 8 {
                ds_wide(s)
            } else {
                ds_give_up(s, ds_width_msg(w as int, screen as int))
            },
            DeepSeekSetupEvent::WindowWidth(Err(m)) => ds_give_up(s, m@),
            _ => ds_give_up(s, ds_unexpected_msg()),
        },
        DeepSeekSetupPhase::Tidying => match e {
            DeepSeekSetupEvent::Outcome(_) => ds_ask(s, DeepSeekSetupPhase::NewChat, rep, DeepSeekSetupCall::StartNewChat, Seq::empty()),
            _ => ds_give_up(s, ds_unexpected_msg()),
        },
        DeepSeekSetupPhase::NewChat => match e {
            DeepSeekSetupEvent::Outcome(Ok(())) => ds_ask(s, DeepSeekSetupPhase::Reloading, SetupReport { clicked_new_chat: true, ..rep }, DeepSeekSetupCall::Navigate, home),
            DeepSeekSetupEvent::Outcome(Err(m)) => ds_give_up(s, m@),
            _ => ds_give_up(s, ds_unexpected_msg()),
        },
        DeepSeekSetupPhase::Reloading => match e {
            DeepSeekSetupEvent::Outcome(Ok(())) => ds_ask(s, DeepSeekSetupPhase::NewChatAgain, rep, DeepSeekSetupCall::StartNewChat, Seq::empty()),
            DeepSeekSetupEvent::Outcome(Err(m)) => ds_give_up(s, "reload navigate_current_tab: "@ + m@),
            _ => ds_give_up(s, ds_unexpected_msg()),
        },
        DeepSeekSetupPhase::NewChatAgain => match e {
            DeepSeekSetupEvent::Outcome(Ok(())) => ds_ask(s, DeepSeekSetupPhase::ChipCheck, rep, DeepSeekSetupCall::CheckAttachment, Seq::empty()),
            DeepSeekSetupEvent::Outcome(Err(m)) => ds_give_up(s, m@),
            _ => ds_give_up(s, ds_unexpected_msg()),
        },
        DeepSeekSetupPhase::ChipCheck => match e {
            DeepSeekSetupEvent::Attachment(present) => if present {
                ds_give_up(s, ds_chip_msg())
            } else {
                ds_ask(s, DeepSeekSetupPhase::SelectingModel, rep, DeepSeekSetupCall::SelectModel(s.model_mode), Seq::empty())
            },
            _ => ds_give_up(s, ds_unexpected_msg()),
        },
        DeepSeekSetupPhase::SelectingModel => match e {
            DeepSeekSetupEvent::Outcome(Ok(())) => ds_ask(s, DeepSeekSetupPhase::DeepThinking, SetupReport { model_selected: true, ..rep }, DeepSeekSetupCall::SetDeepThinking(s.deep_thinking), Seq::empty()),
            DeepSeekSetupEvent::Outcome(Err(m)) => ds_give_up(s, m@),
            _ => ds_give_up(s, ds_unexpected_msg()),
        },
        DeepSeekSetupPhase::DeepThinking => match e {
            DeepSeekSetupEvent::Outcome(Ok(())) => ds_ask(s, DeepSeekSetupPhase::SmartSearch, SetupReport { deep_thinking_set: true, ..rep }, DeepSeekSetupCall::SetSmartSearch(s.smart_search), Seq::empty()),
            DeepSeekSetupEvent::Outcome(Err(m)) => ds_give_up(s, m@),
            _ => ds_give_up(s, ds_unexpected_msg()),
        },
        DeepSeekSetupPhase::SmartSearch => match e {
            DeepSeekSetupEvent::Outcome(Ok(())) => {
                let done = SetupReport { smart_search_set: true, ..rep };
                ds_ask(s, DeepSeekSetupPhase::Complete, done, DeepSeekSetupCall::Done(done), Seq::empty())
            },
            DeepSeekSetupEvent::Outcome(Err(m)) => ds_give_up(s, m@),
            _ => ds_give_up(s, ds_unexpected_msg()),
        },
        DeepSeekSetupPhase::Complete | DeepSeekSetupPhase::Failed => ds_give_up(s, ds_unexpected_msg()),
    }
}

/// A report with no step done.
pub open spec fn ds_nothing_done() -> SetupReport {
    SetupReport {
        browser_focused: false,
        navigated_to_deepseek: false,
        reused_existing_tab: false,
        forced_fullscreen: false,
        clicked_new_chat: false,
        model_selected: false,
        deep_thinking_set: false,
        smart_search_set: false,
    }
}

// ── What every run keeps ────────────────────────────────────────────────────

/// How far a phase is along the protocol; a failed setup is at -1.
pub open spec fn ds_stage(p: DeepSeekSetupPhase) -> int {
    match p {
        DeepSeekSetupPhase::FocusWait { .. } => 1,
        DeepSeekSetupPhase::FindTab | DeepSeekSetupPhase::OpeningTab | DeepSeekSetupPhase::UrlCheck
        | DeepSeekSetupPhase::Navigating | DeepSeekSetupPhase::UrlRecheck => 2,
        DeepSeekSetupPhase::Measuring | DeepSeekSetupPhase::Fullscreening { .. } | DeepSeekSetupPhase::WidthRecheck { .. } => 3,
        DeepSeekSetupPhase::Tidying | DeepSeekSetupPhase::NewChat => 4,
        DeepSeekSetupPhase::Reloading | DeepSeekSetupPhase::NewChatAgain | DeepSeekSetupPhase::ChipCheck
        | DeepSeekSetupPhase::SelectingModel => 5,
        DeepSeekSetupPhase::DeepThinking => 6,
        DeepSeekSetupPhase::SmartSearch => 7,
        DeepSeekSetupPhase::Complete => 8,
        DeepSeekSetupPhase::Failed => -1,
    }
}

/// The report records every step the setup has passed.
pub open spec fn ds_setup_wf(s: DeepSeekSetupState) -> bool {
    let k = ds_stage(s.phase);
    &&& k >= 2 ==> s.report.browser_focused
    &&& k >= 3 ==> s.report.navigated_to_deepseek
    &&& k >= 4 ==> s.report.forced_fullscreen
    &&& k >= 5 ==> s.report.clicked_new_chat
    &&& k >= 6 ==> s.report.model_selected
    &&& k >= 7 ==> s.report.deep_thinking_set
    &&& k >= 8 ==> s.report.smart_search_set
}

/// Every step keeps the invariant; the setup finishes only after the smart
/// search toggle was set, with every step of the report done; and Chrome
/// gets three chances to come forward, the third failed reading ending the
/// setup with its message before any tab is touched.
pub proof fn law_deepseek_setup_step(s: DeepSeekSetupState, e: DeepSeekSetupEvent)
    requires
        ds_setup_wf(s),
    ensures
        ds_setup_wf(ds_setup_spec(s, e).0),
        ds_setup_spec(s, e).1.0 matches DeepSeekSetupCall::Done(r) ==> {
            &&& s.phase == DeepSeekSetupPhase::SmartSearch
            &&& r.browser_focused && r.navigated_to_deepseek && r.forced_fullscreen && r.clicked_new_chat
            &&& r.model_selected && r.deep_thinking_set && r.smart_search_set
        },
        s.phase == (DeepSeekSetupPhase::FocusWait { attempt: 3 }) ==> (e matches DeepSeekSetupEvent::FrontmostApp(app)
            && !has_substr(lower_text(app@), "chrome"@) ==> ds_setup_spec(s, e).1 == (DeepSeekSetupCall::Abort, ds_focus_failed_msg())),
{
}

// ── Running it ──────────────────────────────────────────────────────────────

fn ds_text(a: &str) -> (r: String)
    ensures
        r@ == a@,
{
    let mut r = String::new();
    r.append(a);
    r
}

fn ds_text2(a: &str, b: &str) -> (r: String)
    ensures
        r@ == a@ + b@,
{
    let mut r = ds_text(a);
    r.append(b);
    r
}

fn ds_to(s: &DeepSeekSetupState, phase: DeepSeekSetupPhase, report: SetupReport, a: DeepSeekSetupAction) -> (r: (DeepSeekSetupState, DeepSeekSetupAction))
    ensures
        r.0 == (DeepSeekSetupState { phase, report, ..*s }),
        r.1 == a,
{
    (DeepSeekSetupState { phase, report, ..*s }, a)
}

fn ds_stop(s: &DeepSeekSetupState, msg: String) -> (r: (DeepSeekSetupState, DeepSeekSetupAction))
    ensures
        (r.0, ds_action_view(r.1)) == ds_give_up(*s, msg@),
{
    ds_to(s, DeepSeekSetupPhase::Failed, s.report, DeepSeekSetupAction::Abort(msg))
}

fn ds_unexpected(s: &DeepSeekSetupState) -> (r: (DeepSeekSetupState, DeepSeekSetupAction))
    ensures
        (r.0, ds_action_view(r.1)) == ds_give_up(*s, ds_unexpected_msg()),
{
    ds_stop(s, ds_text("setup: the event does not answer the pending step"))
}

/// Where a DeepSeek setup begins: bring Chrome to the front.
pub fn deepseek_setup_begin(model_mode: DeepSeekModelMode, deep_thinking: bool, smart_search: bool) -> (r: (DeepSeekSetupState, DeepSeekSetupAction))
    ensures
        r.0 == (DeepSeekSetupState { phase: DeepSeekSetupPhase::FocusWait { attempt: 1 }, model_mode, deep_thinking, smart_search, report: ds_nothing_done() }),
        ds_action_view(r.1) == (DeepSeekSetupCall::FocusChrome, Seq::<char>::empty()),
{
    let report = SetupReport::default();
    (DeepSeekSetupState { phase: DeepSeekSetupPhase::FocusWait { attempt: 1 }, model_mode, deep_thinking, smart_search, report }, DeepSeekSetupAction::FocusChrome)
}

fn ds_step_reach(state: &DeepSeekSetupState, event: DeepSeekSetupEvent) -> (r: (DeepSeekSetupState, DeepSeekSetupAction))
    requires
        ds_stage(state.phase) <= 3,
    ensures
        (r.0, ds_action_view(r.1)) == ds_setup_spec(*state, event),
{
    let rep = state.report;
    match state.phase {
        DeepSeekSetupPhase::FocusWait { attempt } => match event {
            DeepSeekSetupEvent::FrontmostApp(app) => if frontmost_is_chrome(app.as_str()) {
                ds_to(state, DeepSeekSetupPhase::FindTab, SetupReport { browser_focused: true, ..rep }, DeepSeekSetupAction::FocusDeepSeekTab)
            } else if attempt < 3 {
                ds_to(state, DeepSeekSetupPhase::FocusWait { attempt: attempt + 1 }, rep, DeepSeekSetupAction::FocusChrome)
            } else {
                ds_stop(state, ds_text("DeepSeek setup failed: Chrome did not become frontmost"))
            },
            _ => ds_unexpected(state),
        },
        DeepSeekSetupPhase::FindTab => match event {
            DeepSeekSetupEvent::TabFocused(Ok(true)) => ds_to(state, DeepSeekSetupPhase::UrlCheck, SetupReport { reused_existing_tab: true, ..rep }, DeepSeekSetupAction::ReadUrl),
            DeepSeekSetupEvent::TabFocused(_) => ds_to(state, DeepSeekSetupPhase::OpeningTab, rep, DeepSeekSetupAction::OpenNewTab(ds_text(DEEPSEEK_HOME_URL))),
            _ => ds_unexpected(state),
        },
        DeepSeekSetupPhase::OpeningTab => match event {
            DeepSeekSetupEvent::Outcome(Ok(())) => ds_to(state, DeepSeekSetupPhase::UrlCheck, rep, DeepSeekSetupAction::ReadUrl),
            DeepSeekSetupEvent::Outcome(Err(m)) => ds_stop(state, ds_text2("open_new_browser_tab: ", m.as_str())),
            _ => ds_unexpected(state),
        },
        DeepSeekSetupPhase::UrlCheck => match event {
            DeepSeekSetupEvent::Url(u) => if str_contains(u.as_str(), DEEPSEEK_URL_SUBSTR) {
                ds_to(state, DeepSeekSetupPhase::Measuring, SetupReport { navigated_to_deepseek: true, ..rep }, DeepSeekSetupAction::ReadWindow)
            } else {
                ds_to(state, DeepSeekSetupPhase::Navigating, rep, DeepSeekSetupAction::Navigate(ds_text(DEEPSEEK_HOME_URL)))
            },
            _ => ds_unexpected(state),
        },
        DeepSeekSetupPhase::Navigating => match event {
            DeepSeekSetupEvent::Outcome(Ok(())) => ds_to(state, DeepSeekSetupPhase::UrlRecheck, rep, DeepSeekSetupAction::ReadUrl),
            DeepSeekSetupEvent::Outcome(Err(m)) => ds_stop(state, ds_text2("navigate_current_tab: ", m.as_str())),
            _ => ds_unexpected(state),
        },
        DeepSeekSetupPhase::UrlRecheck => match event {
            DeepSeekSetupEvent::Url(u) => if str_contains(u.as_str(), DEEPSEEK_URL_SUBSTR) {
                ds_to(state, DeepSeekSetupPhase::Measuring, SetupReport { navigated_to_deepseek: true, ..rep }, DeepSeekSetupAction::ReadWindow)
            } else {
                let mut m = ds_text2("DeepSeek setup failed: current URL '", u.as_str());
                m.append("' is not DeepSeek");
                ds_stop(state, m)
            },
            _ => ds_unexpected(state),
        },
        DeepSeekSetupPhase::Measuring => match event {
            DeepSeekSetupEvent::WindowRead(Ok((w, sw))) => if window_fills_width(w, sw) {
                ds_to(state, DeepSeekSetupPhase::Tidying, SetupReport { forced_fullscreen: true, ..rep }, DeepSeekSetupAction::Tidy)
            } else {
                ds_to(state, DeepSeekSetupPhase::Fullscreening { screen: sw }, rep, DeepSeekSetupAction::SetFullscreen)
            },
            DeepSeekSetupEvent::WindowRead(Err(m)) => ds_stop(state, m),
            _ => ds_unexpected(state),
        },
        DeepSeekSetupPhase::Fullscreening { screen } => match event {
            DeepSeekSetupEvent::Outcome(Ok(())) => ds_to(state, DeepSeekSetupPhase::WidthRecheck { screen }, rep, DeepSeekSetupAction::ReadWindowWidth),
            DeepSeekSetupEvent::Outcome(Err(m)) => ds_stop(state, ds_text2("set_chrome_fullscreen: ", m.as_str())),
            _ => ds_unexpected(state),
        },
        DeepSeekSetupPhase::WidthRecheck { screen } => match event {
            DeepSeekSetupEvent::WindowWidth(Ok(w)) => if window_fills_width(w, screen) {
                ds_to(state, DeepSeekSetupPhase::Tidying, SetupReport { forced_fullscreen: true, ..rep }, DeepSeekSetupAction::Tidy)
            } else {
                let mut m = ds_text("DeepSeek setup failed: Chrome width ");
                push_int(&mut m, w);
                m.append(" < screen width ");
                push_int(&mut m, screen);
                ds_stop(state, m)
            },
            DeepSeekSetupEvent::WindowWidth(Err(m)) => ds_stop(state, m),
            _ => ds_unexpected(state),
        },
        _ => ds_unexpected(state),
    }
}

fn ds_step_prepare(state: &DeepSeekSetupState, event: DeepSeekSetupEvent) -> (r: (DeepSeekSetupState, DeepSeekSetupAction))
    requires
        ds_stage(state.phase) > 3 || ds_stage(state.phase) < 1,
    ensures
        (r.0, ds_action_view(r.1)) == ds_setup_spec(*state, event),
{
    let rep = state.report;
    match state.phase {
        DeepSeekSetupPhase::Tidying => match event {
            DeepSeekSetupEvent::Outcome(_) => ds_to(state, DeepSeekSetupPhase::NewChat, rep, DeepSeekSetupAction::StartNewChat),
            _ => ds_unexpected(state),
        },
        DeepSeekSetupPhase::NewChat => match event {
            DeepSeekSetupEvent::Outcome(Ok(())) => ds_to(state, DeepSeekSetupPhase::Reloading, SetupReport { clicked_new_chat: true, ..rep }, DeepSeekSetupAction::Navigate(ds_text(DEEPSEEK_HOME_URL))),
            DeepSeekSetupEvent::Outcome(Err(m)) => ds_stop(state, m),
            _ => ds_unexpected(state),
        },
        DeepSeekSetupPhase::Reloading => match event {
            DeepSeekSetupEvent::Outcome(Ok(())) => ds_to(state, DeepSeekSetupPhase::NewChatAgain, rep, DeepSeekSetupAction::StartNewChat),
            DeepSeekSetupEvent::Outcome(Err(m)) => ds_stop(state, ds_text2("reload navigate_current_tab: ", m.as_str())),
            _ => ds_unexpected(state),
        },
        DeepSeekSetupPhase::NewChatAgain => match event {
            DeepSeekSetupEvent::Outcome(Ok(())) => ds_to(state, DeepSeekSetupPhase::ChipCheck, rep, DeepSeekSetupAction::CheckAttachment),
            DeepSeekSetupEvent::Outcome(Err(m)) => ds_stop(state, m),
            _ => ds_unexpected(state),
        },
        DeepSeekSetupPhase::ChipCheck => match event {
            DeepSeekSetupEvent::Attachment(present) => if present {
                ds_stop(state, ds_text("DeepSeek setup failed: chip still present after reload — composer not empty"))
            } else {
                ds_to(state, DeepSeekSetupPhase::SelectingModel, rep, DeepSeekSetupAction::SelectModel(state.model_mode))
            },
            _ => ds_unexpected(state),
        },
        DeepSeekSetupPhase::SelectingModel => match event {
            DeepSeekSetupEvent::Outcome(Ok(())) => ds_to(state, DeepSeekSetupPhase::DeepThinking, SetupReport { model_selected: true, ..rep }, DeepSeekSetupAction::SetDeepThinking(state.deep_thinking)),
            DeepSeekSetupEvent::Outcome(Err(m)) => ds_stop(state, m),
            _ => ds_unexpected(state),
        },
        DeepSeekSetupPhase::DeepThinking => match event {
            DeepSeekSetupEvent::Outcome(Ok(())) => ds_to(state, DeepSeekSetupPhase::SmartSearch, SetupReport { deep_thinking_set: true, ..rep }, DeepSeekSetupAction::SetSmartSearch(state.smart_search)),
            DeepSeekSetupEvent::Outcome(Err(m)) => ds_stop(state, m),
            _ => ds_unexpected(state),
        },
        DeepSeekSetupPhase::SmartSearch => match event {
            DeepSeekSetupEvent::Outcome(Ok(())) => {
                let done = SetupReport { smart_search_set: true, ..rep };
                ds_to(state, DeepSeekSetupPhase::Complete, done, DeepSeekSetupAction::Done(done))
            },
            DeepSeekSetupEvent::Outcome(Err(m)) => ds_stop(state, m),
            _ => ds_unexpected(state),
        },
        _ => ds_unexpected(state),
    }
}

/// One step of the setup: what the caller observed after the last action
/// decides the next state and action.
pub fn deepseek_setup_next(state: &DeepSeekSetupState, event: DeepSeekSetupEvent) -> (r: (DeepSeekSetupState, DeepSeekSetupAction))
    ensures
        (r.0, ds_action_view(r.1)) == ds_setup_spec(*state, event),
{
    match state.phase {
        DeepSeekSetupPhase::FocusWait { .. } | DeepSeekSetupPhase::FindTab | DeepSeekSetupPhase::OpeningTab
        | DeepSeekSetupPhase::UrlCheck | DeepSeekSetupPhase::Navigating | DeepSeekSetupPhase::UrlRecheck
        | DeepSeekSetupPhase::Measuring | DeepSeekSetupPhase::Fullscreening { .. }
        | DeepSeekSetupPhase::WidthRecheck { .. } => ds_step_reach(state, event),
        _ => ds_step_prepare(state, event),
    }
}

} // verus!
