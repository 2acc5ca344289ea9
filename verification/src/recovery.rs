//! Recovery action catalogue and the dispatcher that walks it in cost order.
//!
//! The watchdog reports a `Problem`; the dispatcher tries every applicable
//! action, cheapest first. Each action answers `Success` (problem resolved),
//! `Retry` (run it again after a backoff) or `Escalate` (move on to the next
//! applicable action). When every applicable action has escalated, the
//! dispatch fails and lists what it tried.
//!
//! Executing an action touches the desktop, so the dispatch is a state
//! machine: `DispatchRun::next` says which action to execute, and
//! `DispatchRun::record` takes the outcome and decides what comes next.
use vstd::prelude::*;
use crate::text::{chars_of, join_names, join_spec, starts_with_chars, views_of};

verus! {

// ── Problem catalogue ───────────────────────────────────────────────────────

#[derive(Debug)]
pub enum Problem {
    BrowserNotForeground { seen_title: String },
    WrongUrl { seen_url: String },
    UnexpectedTab,
    UnexpectedModal,
    BrowserMissing,
    UserActivity,
    /// The adapter returned `Unknown` repeatedly.
    UnknownScreen,
    /// The adapter reported `Error` — generation failed.
    GenerationError,
    /// The adapter reported `ChatFull` — a new chat must be started.
    ChatFull,
    /// The browser is not in native fullscreen.
    BrowserNotFullscreen,
    /// Anything not categorised.
    Other(String),
}

/// The text a problem is displayed as.
pub open spec fn problem_text(p: Problem) -> Seq<char> {
    match p {
        Problem::BrowserNotForeground { seen_title } =>
            "browser not foreground (saw '"@ + seen_title@ + "')"@,
        Problem::WrongUrl { seen_url } => "wrong URL (saw '"@ + seen_url@ + "')"@,
        Problem::UnexpectedTab => "unexpected tab"@,
        Problem::UnexpectedModal => "unexpected modal"@,
        Problem::BrowserMissing => "browser missing"@,
        Problem::UserActivity => "user activity detected"@,
        Problem::UnknownScreen => "unknown screen"@,
        Problem::GenerationError => "generation error"@,
        Problem::ChatFull => "chat full"@,
        Problem::BrowserNotFullscreen => "browser not fullscreen"@,
        Problem::Other(s) => "other: "@ + s@,
    }
}

/// Builds `a + b + c` as a new string.
fn concat3(a: &str, b: &str, c: &str) -> (r: String)
    ensures
        r@ == a@ + b@ + c@,
{
    let mut r = String::from_str(a);
    r.append(b);
    r.append(c);
    r
}

impl Problem {
    /// The human-readable description of the problem.
    pub fn describe(&self) -> (r: String)
        ensures
            r@ == problem_text(*self),
    {
        match self {
            Problem::BrowserNotForeground { seen_title } =>
                concat3("browser not foreground (saw '", seen_title.as_str(), "')"),
            Problem::WrongUrl { seen_url } => concat3("wrong URL (saw '", seen_url.as_str(), "')"),
            Problem::UnexpectedTab => String::from_str("unexpected tab"),
            Problem::UnexpectedModal => String::from_str("unexpected modal"),
            Problem::BrowserMissing => String::from_str("browser missing"),
            Problem::UserActivity => String::from_str("user activity detected"),
            Problem::UnknownScreen => String::from_str("unknown screen"),
            Problem::GenerationError => String::from_str("generation error"),
            Problem::ChatFull => String::from_str("chat full"),
            Problem::BrowserNotFullscreen => String::from_str("browser not fullscreen"),
            Problem::Other(s) => {
                let mut r = String::from_str("other: ");
                r.append(s.as_str());
                r
            },
        }
    }

    /// An equal copy of the problem.
    pub fn duplicate(&self) -> (r: Problem)
        ensures
            r == *self,
    {
        match self {
            Problem::BrowserNotForeground { seen_title } =>
                Problem::BrowserNotForeground { seen_title: seen_title.clone() },
            Problem::WrongUrl { seen_url } => Problem::WrongUrl { seen_url: seen_url.clone() },
            Problem::UnexpectedTab => Problem::UnexpectedTab,
            Problem::UnexpectedModal => Problem::UnexpectedModal,
            Problem::BrowserMissing => Problem::BrowserMissing,
            Problem::UserActivity => Problem::UserActivity,
            Problem::UnknownScreen => Problem::UnknownScreen,
            Problem::GenerationError => Problem::GenerationError,
            Problem::ChatFull => Problem::ChatFull,
            Problem::BrowserNotFullscreen => Problem::BrowserNotFullscreen,
            Problem::Other(s) => Problem::Other(s.clone()),
        }
    }

    /// Whether this is the `ChatFull` problem.
    pub fn is_chat_full(&self) -> (b: bool)
        ensures
            b == (*self is ChatFull),
    {
        match self {
            Problem::ChatFull => true,
            _ => false,
        }
    }
}

// ── Outcomes ────────────────────────────────────────────────────────────────

#[derive(Clone, Copy, Debug, PartialEq, Eq, Structural)]
pub enum RecoveryOutcome {
    /// Problem is resolved, the FSM may resume.
    Success,
    /// Run this action again (after a short backoff).
    Retry,
    /// Move to the next applicable action.
    Escalate,
}

#[derive(Debug)]
pub enum DispatchResult {
    Recovered { action: &'static str },
    Failed { tried: Vec<&'static str> },
}

/// Per-site hints used by generic recovery actions.
#[derive(Clone, Copy, Debug)]
pub struct SiteHints {
    pub browser_title_substr: &'static str,
    pub site_url: &'static str,
    pub site_title_substr: &'static str,
}

// ── The action catalogue ────────────────────────────────────────────────────

/// Focus the browser window.
pub struct RefocusBrowser;

/// Bring an existing tab on the configured site to the front.
pub struct FocusSiteTab;

/// Open a new tab pointing at the site.
pub struct NavigateBackToSite;

/// Ask the adapter to dismiss any visible modal.
pub struct DismissModal;

/// Press Escape.
pub struct PressEscape;

/// Force the browser into native fullscreen.
pub struct MaximizeBrowser;

/// Open a new chat.
pub struct StartNewChat;

/// Pause until the user's cursor has been idle for a while.
pub struct WaitForUserIdle;

/// The recovery actions the dispatcher knows, one per action type.
#[derive(Clone, Copy, Debug, PartialEq, Eq, Structural)]
pub enum ActionKind {
    RefocusBrowser,
    FocusSiteTab,
    NavigateBackToSite,
    DismissModal,
    PressEscape,
    MaximizeBrowser,
    StartNewChat,
    WaitForUserIdle,
}

/// Stable name of an action, used in logs and dispatch results.
pub open spec fn action_name(k: ActionKind) -> Seq<char> {
    match k {
        ActionKind::RefocusBrowser => "refocus_browser"@,
        ActionKind::FocusSiteTab => "focus_site_tab"@,
        ActionKind::NavigateBackToSite => "navigate_back_to_site"@,
        ActionKind::DismissModal => "dismiss_modal"@,
        ActionKind::PressEscape => "press_escape"@,
        ActionKind::MaximizeBrowser => "maximize_browser"@,
        ActionKind::StartNewChat => "start_new_chat"@,
        ActionKind::WaitForUserIdle => "wait_for_user_idle"@,
    }
}

/// Cost of an action: lower is cheaper and safer.
pub open spec fn action_cost(k: ActionKind) -> u8 {
    match k {
        ActionKind::RefocusBrowser => 10,
        ActionKind::FocusSiteTab => 20,
        ActionKind::NavigateBackToSite => 35,
        ActionKind::DismissModal => 5,
        ActionKind::PressEscape => 1,
        ActionKind::MaximizeBrowser => 15,
        ActionKind::StartNewChat => 50,
        ActionKind::WaitForUserIdle => 1,
    }
}

/// Whether an action makes sense for a problem.
pub open spec fn action_applies(k: ActionKind, p: Problem) -> bool {
    match k {
        ActionKind::RefocusBrowser => p is BrowserNotForeground || p is UnexpectedTab,
        ActionKind::FocusSiteTab => p is WrongUrl || p is UnexpectedTab,
        ActionKind::NavigateBackToSite => p is WrongUrl || p is UnexpectedTab,
        ActionKind::DismissModal => p is UnexpectedModal || p is UnknownScreen,
        ActionKind::PressEscape => p is UnexpectedModal || p is UnknownScreen,
        ActionKind::MaximizeBrowser => p is BrowserNotFullscreen,
        ActionKind::StartNewChat => p is ChatFull,
        ActionKind::WaitForUserIdle => p is UserActivity,
    }
}

impl ActionKind {
    pub fn name(&self) -> (r: &'static str)
        ensures
            r@ == action_name(*self),
    {
        match self {
            ActionKind::RefocusBrowser => "refocus_browser",
            ActionKind::FocusSiteTab => "focus_site_tab",
            ActionKind::NavigateBackToSite => "navigate_back_to_site",
            ActionKind::DismissModal => "dismiss_modal",
            ActionKind::PressEscape => "press_escape",
            ActionKind::MaximizeBrowser => "maximize_browser",
            ActionKind::StartNewChat => "start_new_chat",
            ActionKind::WaitForUserIdle => "wait_for_user_idle",
        }
    }

    pub fn cost(&self) -> (c: u8)
        ensures
            c == action_cost(*self),
    {
        match self {
            ActionKind::RefocusBrowser => 10,
            ActionKind::FocusSiteTab => 20,
            ActionKind::NavigateBackToSite => 35,
            ActionKind::DismissModal => 5,
            ActionKind::PressEscape => 1,
            ActionKind::MaximizeBrowser => 15,
            ActionKind::StartNewChat => 50,
            ActionKind::WaitForUserIdle => 1,
        }
    }

    pub fn applies_to(&self, p: &Problem) -> (b: bool)
        ensures
            b == action_applies(*self, *p),
    {
        match self {
            ActionKind::RefocusBrowser => match p {
                Problem::BrowserNotForeground { .. } | Problem::UnexpectedTab => true,
                _ => false,
            },
            ActionKind::FocusSiteTab | ActionKind::NavigateBackToSite => match p {
                Problem::WrongUrl { .. } | Problem::UnexpectedTab => true,
                _ => false,
            },
            ActionKind::DismissModal | ActionKind::PressEscape => match p {
                Problem::UnexpectedModal | Problem::UnknownScreen => true,
                _ => false,
            },
            ActionKind::MaximizeBrowser => match p {
                Problem::BrowserNotFullscreen => true,
                _ => false,
            },
            ActionKind::StartNewChat => match p {
                Problem::ChatFull => true,
                _ => false,
            },
            ActionKind::WaitForUserIdle => match p {
                Problem::UserActivity => true,
                _ => false,
            },
        }
    }
}

impl RefocusBrowser {
    pub fn kind(&self) -> (k: ActionKind)
        ensures
            k == ActionKind::RefocusBrowser,
    {
        ActionKind::RefocusBrowser
    }
}

impl FocusSiteTab {
    pub fn kind(&self) -> (k: ActionKind)
        ensures
            k == ActionKind::FocusSiteTab,
    {
        ActionKind::FocusSiteTab
    }
}

impl NavigateBackToSite {
    pub fn kind(&self) -> (k: ActionKind)
        ensures
            k == ActionKind::NavigateBackToSite,
    {
        ActionKind::NavigateBackToSite
    }
}

impl DismissModal {
    pub fn kind(&self) -> (k: ActionKind)
        ensures
            k == ActionKind::DismissModal,
    {
        ActionKind::DismissModal
    }
}

impl PressEscape {
    pub fn kind(&self) -> (k: ActionKind)
        ensures
            k == ActionKind::PressEscape,
    {
        ActionKind::PressEscape
    }
}

impl MaximizeBrowser {
    pub fn kind(&self) -> (k: ActionKind)
        ensures
            k == ActionKind::MaximizeBrowser,
    {
        ActionKind::MaximizeBrowser
    }
}

impl StartNewChat {
    pub fn kind(&self) -> (k: ActionKind)
        ensures
            k == ActionKind::StartNewChat,
    {
        ActionKind::StartNewChat
    }
}

impl WaitForUserIdle {
    pub fn kind(&self) -> (k: ActionKind)
        ensures
            k == ActionKind::WaitForUserIdle,
    {
        ActionKind::WaitForUserIdle
    }
}

/// The default action set, listed in insertion order; the
/// dispatcher orders it by cost.
pub fn default_actions() -> (v: Vec<ActionKind>)
    ensures
        v@ == default_action_seq(),
        v@ == seq![
            ActionKind::PressEscape,
            ActionKind::DismissModal,
            ActionKind::WaitForUserIdle,
            ActionKind::RefocusBrowser,
            ActionKind::MaximizeBrowser,
            ActionKind::FocusSiteTab,
            ActionKind::NavigateBackToSite,
            ActionKind::StartNewChat,
        ],
{
    vec![
        ActionKind::PressEscape,
        ActionKind::DismissModal,
        ActionKind::WaitForUserIdle,
        ActionKind::RefocusBrowser,
        ActionKind::MaximizeBrowser,
        ActionKind::FocusSiteTab,
        ActionKind::NavigateBackToSite,
        ActionKind::StartNewChat,
    ]
}

// ── Cost ordering ───────────────────────────────────────────────────────────

/// The actions of `s` whose cost is `c`, in their given order.
pub open spec fn with_cost(s: Seq<ActionKind>, c: int) -> Seq<ActionKind>
    decreases s.len(),
{
    if s.len() == 0 {
        Seq::empty()
    } else {
        let rest = with_cost(s.drop_last(), c);
        if action_cost(s.last()) == c {
            rest.push(s.last())
        } else {
            rest
        }
    }
}

/// The actions of `s` whose cost is below `c`, grouped by ascending cost,
/// each group in its given order.
pub open spec fn cost_prefix(s: Seq<ActionKind>, c: int) -> Seq<ActionKind>
    decreases c,
{
    if c <= 0 {
        Seq::empty()
    } else {
        cost_prefix(s, c - 1) + with_cost(s, c - 1)
    }
}

/// `s` stably sorted by ascending cost (costs are `u8`, so below 256).
pub open spec fn cost_order(s: Seq<ActionKind>) -> Seq<ActionKind> {
    cost_prefix(s, 256)
}

/// Names of the actions of `s`.
pub open spec fn names_of(s: Seq<ActionKind>) -> Seq<Seq<char>>
    decreases s.len(),
{
    if s.len() == 0 {
        Seq::empty()
    } else {
        names_of(s.drop_last()).push(action_name(s.last()))
    }
}

/// The applicable actions among the first `upto` of `s`, in order.
pub open spec fn applicable_prefix(s: Seq<ActionKind>, p: Problem, upto: int) -> Seq<ActionKind>
    decreases upto,
{
    if upto <= 0 || s.len() == 0 {
        Seq::empty()
    } else if upto > s.len() {
        applicable_prefix(s, p, s.len() as int)
    } else {
        let rest = applicable_prefix(s, p, upto - 1);
        if action_applies(s[upto - 1], p) {
            rest.push(s[upto - 1])
        } else {
            rest
        }
    }
}

/// The first index at or after `from` whose action applies to `p`, or
/// `s.len()` when none does.
pub open spec fn next_applicable(s: Seq<ActionKind>, p: Problem, from: int) -> int
    decreases s.len() - from,
{
    if from >= s.len() {
        s.len() as int
    } else if from < 0 {
        next_applicable(s, p, 0)
    } else if action_applies(s[from], p) {
        from
    } else {
        next_applicable(s, p, from + 1)
    }
}

/// One recorded outcome at action `cursor`, attempt `attempt`: the next
/// cursor and attempt, and whether the problem is resolved. Success stops
/// at the current action; a retry stays on it until the retries are used
/// up; otherwise the next applicable action is lined up.
pub open spec fn dispatch_step(s: Seq<ActionKind>, p: Problem, max: u8, cursor: int, attempt: int, out: RecoveryOutcome) -> (int, int, bool) {
    match out {
        RecoveryOutcome::Success => (cursor, attempt, true),
        RecoveryOutcome::Retry => if attempt < max {
            (cursor, attempt + 1, false)
        } else {
            (next_applicable(s, p, cursor + 1), 0, false)
        },
        RecoveryOutcome::Escalate => (next_applicable(s, p, cursor + 1), 0, false),
    }
}

/// A dispatch fed the outcomes `outs` in turn, from `cursor` and `attempt`,
/// while it is not over: the final cursor and attempt, whether the problem
/// was resolved, and how many outcomes were used.
pub open spec fn dispatch_fold(s: Seq<ActionKind>, p: Problem, max: u8, cursor: int, attempt: int, outs: Seq<RecoveryOutcome>) -> (int, int, bool, nat)
    decreases outs.len(),
{
    if outs.len() == 0 || cursor >= s.len() {
        (cursor, attempt, false, 0)
    } else {
        let n = dispatch_step(s, p, max, cursor, attempt, outs[0]);
        if n.2 {
            (n.0, n.1, true, 1)
        } else {
            let r = dispatch_fold(s, p, max, n.0, n.1, outs.subrange(1, outs.len() as int));
            (r.0, r.1, r.2, r.3 + 1)
        }
    }
}

pub struct RecoveryDispatcher {
    actions: Vec<ActionKind>,
    /// How many times to retry a single action before escalating.
    max_retries: u8,
    /// Pause between retries, in milliseconds.
    backoff_ms: u64,
}

impl RecoveryDispatcher {
    /// The dispatcher's actions, in the order it tries them.
    pub closed spec fn actions_spec(&self) -> Seq<ActionKind> {
        self.actions@
    }

    pub closed spec fn max_retries_spec(&self) -> u8 {
        self.max_retries
    }

    pub closed spec fn backoff_spec(&self) -> u64 {
        self.backoff_ms
    }

    /// Build a dispatcher that tries `actions` in ascending cost order;
    /// actions of equal cost keep their relative order.
    pub fn new(actions: Vec<ActionKind>) -> (d: Self)
        ensures
            d.actions_spec() == cost_order(actions@),
            d.max_retries_spec() == 2,
            d.backoff_spec() == 750,
    {
        let mut sorted: Vec<ActionKind> = Vec::new();
        let mut c: u16 = 0;
        while c < 256
            invariant
                c <= 256,
                sorted@ == cost_prefix(actions@, c as int),
            decreases 256 - c,
        {
            let mut i: usize = 0;
            while i < actions.len()
                invariant
                    c < 256,
                    i <= actions.len(),
                    sorted@ == cost_prefix(actions@, c as int) + with_cost(
                        actions@.take(i as int),
                        c as int,
                    ),
                decreases actions.len() - i,
            {
                let a = actions[i];
                proof {
                    assert(actions@.take(i + 1).drop_last() == actions@.take(i as int));
                }
                if a.cost() as u16 == c {
                    sorted.push(a);
                }
                i += 1;
            }
            proof {
                assert(actions@.take(actions.len() as int) == actions@);
            }
            c += 1;
        }
        RecoveryDispatcher { actions: sorted, max_retries: 2, backoff_ms: 750 }
    }

    /// Pause between retries of one action, in milliseconds.
    pub fn backoff_ms(&self) -> (b: u64)
        ensures
            b == self.backoff_spec(),
    {
        self.backoff_ms
    }

    /// Start dispatching `problem`: the first applicable action is lined up.
    pub fn begin(&self, problem: Problem) -> (r: DispatchRun)
        ensures
            r.wf(),
            r.problem_spec() == problem,
            r.actions_spec() == self.actions_spec(),
            r.max_retries_spec() == self.max_retries_spec(),
            r.cursor_spec() == next_applicable(self.actions_spec(), problem, 0),
            r.attempt_spec() == 0,
            r.recovered_spec() is None,
    {
        let mut actions: Vec<ActionKind> = Vec::new();
        let mut i: usize = 0;
        while i < self.actions.len()
            invariant
                i <= self.actions.len(),
                actions@ == self.actions@.take(i as int),
            decreases self.actions.len() - i,
        {
            actions.push(self.actions[i]);
            proof {
                assert(self.actions@.take(i + 1) == self.actions@.take(i as int).push(self.actions@[i as int]));
            }
            i += 1;
        }
        proof {
            assert(self.actions@.take(i as int) == self.actions@);
        }
        let mut run = DispatchRun {
            problem,
            actions,
            max_retries: self.max_retries,
            cursor: 0,
            attempt: 0,
            tried: Vec::new(),
            recovered: None,
        };
        proof {
            lemma_next_applicable_bounds(run.actions@, run.problem, 0);
        }
        run.advance_from(0);
        run
    }
}

proof fn lemma_next_applicable_bounds(s: Seq<ActionKind>, p: Problem, from: int)
    requires
        0 <= from,
    ensures
        from <= next_applicable(s, p, from) <= s.len() || (from > s.len() && next_applicable(s, p, from) == s.len()),
        next_applicable(s, p, from) < s.len() ==> action_applies(s[next_applicable(s, p, from)], p),
        forall|j: int| from <= j < next_applicable(s, p, from) ==> !action_applies(s[j], p),
    decreases s.len() - from,
{
    if from < s.len() && !action_applies(s[from], p) {
        lemma_next_applicable_bounds(s, p, from + 1);
    }
}

/// Skipping non-applicable actions leaves the applicable prefix unchanged.
proof fn lemma_applicable_prefix_skip(s: Seq<ActionKind>, p: Problem, from: int, to: int)
    requires
        0 <= from <= to <= s.len(),
        forall|j: int| from <= j < to ==> !action_applies(s[j], p),
    ensures
        applicable_prefix(s, p, to) == applicable_prefix(s, p, from),
    decreases to - from,
{
    if to > from {
        lemma_applicable_prefix_skip(s, p, from, to - 1);
    }
}

/// One dispatch of a problem through the action list.
pub struct DispatchRun {
    problem: Problem,
    actions: Vec<ActionKind>,
    max_retries: u8,
    /// Index of the action being tried; `actions.len()` once none is left.
    cursor: usize,
    /// Attempts already made on the current action beyond the first.
    attempt: u8,
    /// Actions tried so far, in order.
    tried: Vec<ActionKind>,
    /// The action that resolved the problem, once one has.
    recovered: Option<ActionKind>,
}

/// What to do next in a dispatch.
#[derive(Debug)]
pub enum DispatchStep {
    /// Execute this action and report its outcome to `DispatchRun::record`.
    Execute(ActionKind),
    /// The dispatch is over.
    Done(DispatchResult),
}

impl DispatchRun {
    pub closed spec fn problem_spec(&self) -> Problem {
        self.problem
    }

    pub closed spec fn actions_spec(&self) -> Seq<ActionKind> {
        self.actions@
    }

    pub closed spec fn max_retries_spec(&self) -> u8 {
        self.max_retries
    }

    pub closed spec fn cursor_spec(&self) -> int {
        self.cursor as int
    }

    pub closed spec fn attempt_spec(&self) -> u8 {
        self.attempt
    }

    pub closed spec fn tried_spec(&self) -> Seq<ActionKind> {
        self.tried@
    }

    pub closed spec fn recovered_spec(&self) -> Option<ActionKind> {
        self.recovered
    }

    /// The run's invariant: the cursor sits on an applicable action (or past
    /// the end), and `tried` lists exactly the applicable actions up to and
    /// including the cursor.
    pub closed spec fn wf(&self) -> bool {
        &&& self.cursor <= self.actions.len()
        &&& self.attempt <= self.max_retries
        &&& self.cursor < self.actions.len() ==> action_applies(self.actions@[self.cursor as int], self.problem)
        &&& self.tried@ == applicable_prefix(
            self.actions@,
            self.problem,
            if self.cursor < self.actions.len() { self.cursor + 1 } else { self.cursor as int },
        )
        &&& self.recovered is Some ==> self.cursor < self.actions.len() && self.recovered == Some(self.actions@[self.cursor as int])
    }

    /// Whether the dispatch is over.
    pub open spec fn finished(&self) -> bool {
        self.recovered_spec() is Some || self.cursor_spec() >= self.actions_spec().len()
    }

    /// Move the cursor to the first applicable action at or after `from`.
    fn advance_from(&mut self, from: usize)
        requires
            from <= old(self).actions.len(),
            old(self).attempt <= old(self).max_retries,
            old(self).recovered is None,
            old(self).tried@ == applicable_prefix(old(self).actions@, old(self).problem, from as int),
        ensures
            final(self).wf(),
            final(self).problem == old(self).problem,
            final(self).actions == old(self).actions,
            final(self).max_retries == old(self).max_retries,
            final(self).recovered is None,
            final(self).attempt == 0,
            final(self).cursor == next_applicable(old(self).actions@, old(self).problem, from as int),
    {
        let mut j = from;
        while j < self.actions.len() && !self.actions[j].applies_to(&self.problem)
            invariant
                from <= j <= self.actions.len(),
                forall|k: int| from <= k < j ==> !action_applies(self.actions@[k], self.problem),
                self.tried@ == applicable_prefix(self.actions@, self.problem, from as int),
                self.recovered is None,
            decreases self.actions.len() - j,
        {
            j += 1;
        }
        proof {
            lemma_applicable_prefix_skip(self.actions@, self.problem, from as int, j as int);
            lemma_next_applicable_bounds(self.actions@, self.problem, from as int);
            lemma_next_is_first(self.actions@, self.problem, from as int, j as int);
        }
        self.cursor = j;
        self.attempt = 0;
        if j < self.actions.len() {
            let a = self.actions[j];
            self.tried.push(a);
        }
    }

    /// What the dispatcher wants done next.
    pub fn next(&self) -> (step: DispatchStep)
        requires
            self.wf(),
        ensures
            self.recovered_spec() matches Some(k) ==> (step matches DispatchStep::Done(
                DispatchResult::Recovered { action },
            ) && action@ == action_name(k)),
            self.recovered_spec() is None && self.cursor_spec() < self.actions_spec().len()
                ==> step == DispatchStep::Execute(self.actions_spec()[self.cursor_spec()]),
            self.recovered_spec() is None && self.cursor_spec() >= self.actions_spec().len()
                ==> (step matches DispatchStep::Done(DispatchResult::Failed { tried })
                && tried@.len() == self.tried_spec().len()
                && forall|i: int| 0 <= i < tried@.len() ==> tried@[i]@ == action_name(self.tried_spec()[i])),
    {
        match self.recovered {
            Some(k) => DispatchStep::Done(DispatchResult::Recovered { action: k.name() }),
            None => {
                if self.cursor < self.actions.len() {
                    DispatchStep::Execute(self.actions[self.cursor])
                } else {
                    let mut names: Vec<&'static str> = Vec::new();
                    let mut i: usize = 0;
                    while i < self.tried.len()
                        invariant
                            i <= self.tried.len(),
                            names@.len() == i,
                            forall|k: int| 0 <= k < i ==> names@[k]@ == action_name(self.tried@[k]),
                        decreases self.tried.len() - i,
                    {
                        names.push(self.tried[i].name());
                        i += 1;
                    }
                    DispatchStep::Done(DispatchResult::Failed { tried: names })
                }
            },
        }
    }

    /// Record the outcome of executing the current action. Returns whether
    /// the caller must pause for the backoff before the next step.
    pub fn record(&mut self, outcome: RecoveryOutcome) -> (sleep_first: bool)
        requires
            old(self).wf(),
            !old(self).finished(),
        ensures
            final(self).wf(),
            final(self).problem_spec() == old(self).problem_spec(),
            final(self).actions_spec() == old(self).actions_spec(),
            final(self).max_retries_spec() == old(self).max_retries_spec(),
            sleep_first == (outcome == RecoveryOutcome::Retry),
            outcome == RecoveryOutcome::Success ==> final(self).recovered_spec() == Some(
                old(self).actions_spec()[old(self).cursor_spec()],
            ) && final(self).cursor_spec() == old(self).cursor_spec(),
            outcome == RecoveryOutcome::Retry && old(self).attempt_spec() < old(self).max_retries_spec()
                ==> final(self).recovered_spec() is None && final(self).cursor_spec() == old(self).cursor_spec()
                && final(self).attempt_spec() == old(self).attempt_spec() + 1,
            (outcome == RecoveryOutcome::Escalate || (outcome == RecoveryOutcome::Retry
                && old(self).attempt_spec() == old(self).max_retries_spec()))
                ==> final(self).recovered_spec() is None && final(self).attempt_spec() == 0
                && final(self).cursor_spec() == next_applicable(
                old(self).actions_spec(),
                old(self).problem_spec(),
                old(self).cursor_spec() + 1,
            ),
            (final(self).cursor_spec(), final(self).attempt_spec() as int, final(self).recovered_spec() is Some)
                == dispatch_step(old(self).actions_spec(), old(self).problem_spec(), old(self).max_retries_spec(),
                old(self).cursor_spec(), old(self).attempt_spec() as int, outcome),
    {
        match outcome {
            RecoveryOutcome::Success => {
                let a = self.actions[self.cursor];
                self.recovered = Some(a);
                false
            },
            RecoveryOutcome::Retry => {
                if self.attempt < self.max_retries {
                    self.attempt = self.attempt + 1;
                } else {
                    let next = self.cursor + 1;
                    proof {
                        self.lemma_tried_step();
                    }
                    self.attempt = 0;
                    self.advance_from(next);
                }
                true
            },
            RecoveryOutcome::Escalate => {
                let next = self.cursor + 1;
                proof {
                    self.lemma_tried_step();
                }
                self.attempt = 0;
                self.advance_from(next);
                false
            },
        }
    }

    proof fn lemma_tried_step(&self)
        requires
            self.wf(),
            self.cursor < self.actions.len(),
        ensures
            self.tried@ == applicable_prefix(self.actions@, self.problem, self.cursor + 1),
    {
    }
}

proof fn lemma_next_is_first(s: Seq<ActionKind>, p: Problem, from: int, j: int)
    requires
        0 <= from <= j <= s.len(),
        forall|k: int| from <= k < j ==> !action_applies(s[k], p),
        j < s.len() ==> action_applies(s[j], p),
    ensures
        next_applicable(s, p, from) == j,
    decreases j - from,
{
    if from < j {
        lemma_next_is_first(s, p, from + 1, j);
    }
}

/// The address `NavigateBackToSite` opens: the site hint itself when it is
/// already a URL (starts with `http`), else the hint behind `https://`.
pub open spec fn navigation_url_spec(site_url: Seq<char>) -> Seq<char> {
    if site_url.len() >= 4 && site_url.take(4) == "http"@ {
        site_url
    } else {
        "https://"@ + site_url
    }
}

pub fn navigation_url(site_url: &str) -> (r: String)
    ensures
        r@ == navigation_url_spec(site_url@),
{
    let v = chars_of(site_url);
    let p = chars_of("http");
    proof {
        reveal_strlit("http");
    }
    if starts_with_chars(&v, &p) {
        String::from_str(site_url)
    } else {
        let mut r = String::from_str("https://");
        r.append(site_url);
        r
    }
}

// ── Waiting for the user to stop ────────────────────────────────────────────

/// How long the cursor must stay still before automation resumes.
pub const USER_IDLE_MS: u64 = 5_000;

/// How often `WaitForUserIdle` reads the cursor.
pub const USER_IDLE_POLL_MS: u64 = 500;

/// What a cursor reading means for the wait.
#[derive(Clone, Copy, Debug, PartialEq, Eq, Structural)]
pub enum IdleVerdict {
    /// Resume automation: the cursor stayed still long enough, or it cannot
    /// be read.
    Resume,
    /// Read the cursor again after `USER_IDLE_POLL_MS`.
    KeepWaiting,
}

/// The state of a `WaitForUserIdle` pause: where the cursor last was and
/// since when it has not moved.
pub struct IdleWatch {
    pub last_pos: (i32, i32),
    pub stable_since_ms: u64,
}

impl IdleWatch {
    /// Start the pause from the first cursor reading; an unreadable cursor
    /// ends the pause at once (`None`).
    pub fn start(first: Result<(i32, i32), String>, now_ms: u64) -> (w: Option<IdleWatch>)
        ensures
            first matches Ok(p) ==> (w matches Some(x) && x.last_pos == p && x.stable_since_ms == now_ms),
            first is Err ==> w is None,
    {
        match first {
            Ok(p) => Some(IdleWatch { last_pos: p, stable_since_ms: now_ms }),
            Err(_) => None,
        }
    }

    /// Take a reading at `now_ms`: a move restarts the idle clock, a still
    /// cursor resumes once it has been still for `USER_IDLE_MS`.
    pub fn observe(&mut self, pos: Result<(i32, i32), String>, now_ms: u64) -> (v: IdleVerdict)
        ensures
            pos is Err ==> v == IdleVerdict::Resume && *final(self) == *old(self),
            pos matches Ok(p) ==> (p != old(self).last_pos ==> v == IdleVerdict::KeepWaiting
                && final(self).last_pos == p && final(self).stable_since_ms == now_ms),
            pos matches Ok(p) ==> (p == old(self).last_pos ==> *final(self) == *old(self)
                && v == if now_ms >= old(self).stable_since_ms && now_ms - old(self).stable_since_ms >= USER_IDLE_MS {
                IdleVerdict::Resume
            } else {
                IdleVerdict::KeepWaiting
            }),
    {
        match pos {
            Err(_) => IdleVerdict::Resume,
            Ok(p) => {
                if p.0 != self.last_pos.0 || p.1 != self.last_pos.1 {
                    self.last_pos = p;
                    self.stable_since_ms = now_ms;
                    IdleVerdict::KeepWaiting
                } else if now_ms >= self.stable_since_ms && now_ms - self.stable_since_ms >= USER_IDLE_MS {
                    IdleVerdict::Resume
                } else {
                    IdleVerdict::KeepWaiting
                }
            },
        }
    }
}

// ── Laws of the dispatcher ──────────────────────────────────────────────────

proof fn lemma_with_cost_elems(s: Seq<ActionKind>, c: int)
    ensures
        forall|i: int| 0 <= i < with_cost(s, c).len() ==> action_cost(#[trigger] with_cost(s, c)[i]) == c,
    decreases s.len(),
{
    if s.len() > 0 {
        lemma_with_cost_elems(s.drop_last(), c);
        let rest = with_cost(s.drop_last(), c);
        assert forall|i: int| 0 <= i < with_cost(s, c).len() implies action_cost(#[trigger] with_cost(s, c)[i]) == c by {
            if i < rest.len() {
                assert(with_cost(s, c)[i] == rest[i]);
            }
        }
    }
}

proof fn lemma_cost_prefix_sorted(s: Seq<ActionKind>, c: int)
    ensures
        forall|i: int| 0 <= i < cost_prefix(s, c).len() ==> action_cost(#[trigger] cost_prefix(s, c)[i]) < c,
        forall|i: int, j: int|
            0 <= i <= j < cost_prefix(s, c).len() ==> action_cost(#[trigger] cost_prefix(s, c)[i]) <= action_cost(
                #[trigger] cost_prefix(s, c)[j],
            ),
    decreases c,
{
    if c > 0 {
        lemma_cost_prefix_sorted(s, c - 1);
        lemma_with_cost_elems(s, c - 1);
        let p = cost_prefix(s, c - 1);
        let w = with_cost(s, c - 1);
        assert(cost_prefix(s, c) == p + w);
        assert forall|i: int| 0 <= i < cost_prefix(s, c).len() implies action_cost(#[trigger] cost_prefix(s, c)[i]) < c by {
            if i < p.len() {
                assert(cost_prefix(s, c)[i] == p[i]);
            } else {
                assert(cost_prefix(s, c)[i] == w[i - p.len()]);
            }
        }
        assert forall|i: int, j: int|
            0 <= i <= j < cost_prefix(s, c).len() implies action_cost(#[trigger] cost_prefix(s, c)[i]) <= action_cost(
                #[trigger] cost_prefix(s, c)[j],
            ) by {
            if j < p.len() {
                assert(cost_prefix(s, c)[i] == p[i]);
                assert(cost_prefix(s, c)[j] == p[j]);
            } else if i < p.len() {
                assert(cost_prefix(s, c)[i] == p[i]);
                assert(cost_prefix(s, c)[j] == w[j - p.len()]);
            } else {
                assert(cost_prefix(s, c)[i] == w[i - p.len()]);
                assert(cost_prefix(s, c)[j] == w[j - p.len()]);
            }
        }
    }
}

/// The dispatcher tries its actions cheapest first: the cost order is
/// sorted by ascending cost.
pub proof fn law_cost_order_sorted(s: Seq<ActionKind>)
    ensures
        forall|i: int, j: int|
            0 <= i <= j < cost_order(s).len() ==> action_cost(#[trigger] cost_order(s)[i]) <= action_cost(
                #[trigger] cost_order(s)[j],
            ),
{
    lemma_cost_prefix_sorted(s, 256);
}

proof fn lemma_cost_prefix_push(s: Seq<ActionKind>, a: ActionKind, c: int)
    ensures
        cost_prefix(s.push(a), c).to_multiset() == if action_cost(a) < c {
            cost_prefix(s, c).to_multiset().insert(a)
        } else {
            cost_prefix(s, c).to_multiset()
        },
    decreases c,
{
    broadcast use vstd::seq_lib::group_to_multiset_ensures;
    if c > 0 {
        lemma_cost_prefix_push(s, a, c - 1);
        assert(s.push(a).drop_last() == s);
        let p = cost_prefix(s, c - 1);
        let w = with_cost(s, c - 1);
        vstd::seq_lib::lemma_multiset_commutative(p, w);
        vstd::seq_lib::lemma_multiset_commutative(cost_prefix(s.push(a), c - 1), with_cost(s.push(a), c - 1));
        if action_cost(a) == c - 1 {
            assert(with_cost(s.push(a), c - 1) == w.push(a));
        } else {
            assert(with_cost(s.push(a), c - 1) == w);
        }
        assert(cost_prefix(s.push(a), c).to_multiset() =~= (if action_cost(a) < c {
            cost_prefix(s, c).to_multiset().insert(a)
        } else {
            cost_prefix(s, c).to_multiset()
        }));
    } else {
        assert(cost_prefix(s.push(a), c) == Seq::<ActionKind>::empty());
        assert(cost_prefix(s, c) == Seq::<ActionKind>::empty());
    }
}

proof fn lemma_cost_prefix_empty(c: int)
    ensures
        cost_prefix(Seq::<ActionKind>::empty(), c) == Seq::<ActionKind>::empty(),
    decreases c,
{
    if c > 0 {
        lemma_cost_prefix_empty(c - 1);
        assert(with_cost(Seq::<ActionKind>::empty(), c - 1) == Seq::<ActionKind>::empty());
        assert(Seq::<ActionKind>::empty() + Seq::<ActionKind>::empty() == Seq::<ActionKind>::empty());
    }
}

/// Ordering by cost loses and invents no action: the cost order holds the
/// same actions, as many times each, as the list it was built from.
pub proof fn law_cost_order_permutation(s: Seq<ActionKind>)
    ensures
        cost_order(s).to_multiset() == s.to_multiset(),
    decreases s.len(),
{
    broadcast use vstd::seq_lib::group_to_multiset_ensures;
    if s.len() == 0 {
        lemma_cost_prefix_empty(256);
        assert(s == Seq::<ActionKind>::empty());
    } else {
        let t = s.drop_last();
        let a = s.last();
        law_cost_order_permutation(t);
        lemma_cost_prefix_push(t, a, 256);
        assert(t.push(a) == s);
    }
}

proof fn lemma_with_cost_concat(a: Seq<ActionKind>, b: Seq<ActionKind>, c: int)
    ensures
        with_cost(a + b, c) == with_cost(a, c) + with_cost(b, c),
    decreases b.len(),
{
    if b.len() == 0 {
        assert(a + b == a);
        assert(with_cost(a, c) + Seq::<ActionKind>::empty() == with_cost(a, c));
    } else {
        lemma_with_cost_concat(a, b.drop_last(), c);
        assert((a + b).drop_last() == a + b.drop_last());
        assert((a + b).last() == b.last());
        if action_cost(b.last()) == c {
            assert(with_cost(a, c) + with_cost(b.drop_last(), c).push(b.last())
                == (with_cost(a, c) + with_cost(b.drop_last(), c)).push(b.last()));
        }
    }
}

proof fn lemma_with_cost_twice(s: Seq<ActionKind>, d: int, c: int)
    ensures
        with_cost(with_cost(s, d), c) == if c == d { with_cost(s, d) } else { Seq::<ActionKind>::empty() },
    decreases s.len(),
{
    if s.len() > 0 {
        lemma_with_cost_twice(s.drop_last(), d, c);
        let r = with_cost(s.drop_last(), d);
        if action_cost(s.last()) == d {
            assert(r.push(s.last()).drop_last() == r);
        }
    }
}

proof fn lemma_prefix_by_cost(s: Seq<ActionKind>, k: int, c: int)
    ensures
        with_cost(cost_prefix(s, k), c) == if 0 <= c < k { with_cost(s, c) } else { Seq::<ActionKind>::empty() },
    decreases k,
{
    if k > 0 {
        lemma_prefix_by_cost(s, k - 1, c);
        lemma_with_cost_concat(cost_prefix(s, k - 1), with_cost(s, k - 1), c);
        lemma_with_cost_twice(s, k - 1, c);
        assert(Seq::<ActionKind>::empty() + with_cost(s, c) == with_cost(s, c));
        assert(with_cost(s, c) + Seq::<ActionKind>::empty() == with_cost(s, c));
        assert(Seq::<ActionKind>::empty() + Seq::<ActionKind>::empty() == Seq::<ActionKind>::empty());
    }
}

/// Ordering by cost is stable: the actions of any one cost appear in the
/// cost order exactly as, and in the order, they appear in the given list.
pub proof fn law_cost_order_stable(s: Seq<ActionKind>, c: int)
    requires
        0 <= c < 256,
    ensures
        with_cost(cost_order(s), c) == with_cost(s, c),
{
    lemma_prefix_by_cost(s, 256, c);
}

/// The problems the watchdog raises each have their remedy: a window out of
/// fullscreen is put back by maximizing it, and only by that; a browser
/// that lost the foreground is refocused; a wrong URL is fixed by finding
/// the site's tab or navigating back to the site; the user's activity is
/// waited out. A full chat is answered by a new chat.
pub proof fn law_watchdog_problems_have_remedies(k: ActionKind, title: String, url: String)
    ensures
        action_applies(k, Problem::BrowserNotFullscreen) <==> k == ActionKind::MaximizeBrowser,
        action_applies(k, Problem::BrowserNotForeground { seen_title: title }) <==> k == ActionKind::RefocusBrowser,
        action_applies(k, Problem::WrongUrl { seen_url: url })
            <==> (k == ActionKind::FocusSiteTab || k == ActionKind::NavigateBackToSite),
        action_applies(k, Problem::UserActivity) <==> k == ActionKind::WaitForUserIdle,
        action_applies(k, Problem::ChatFull) <==> k == ActionKind::StartNewChat,
        action_applies(k, Problem::UnexpectedModal) <==> (k == ActionKind::DismissModal || k == ActionKind::PressEscape),
        action_applies(k, Problem::UnknownScreen) <==> (k == ActionKind::DismissModal || k == ActionKind::PressEscape),
        action_applies(k, Problem::UnexpectedTab) <==> (k == ActionKind::RefocusBrowser || k == ActionKind::FocusSiteTab
            || k == ActionKind::NavigateBackToSite),
        !action_applies(k, Problem::BrowserMissing),
        !action_applies(k, Problem::GenerationError),
        !action_applies(k, Problem::Other(title)),
{
}

proof fn lemma_prefix_skip(s: Seq<ActionKind>, j: int, k: int)
    requires
        0 <= j <= k,
        forall|c: int| j <= c < k ==> #[trigger] with_cost(s, c) == Seq::<ActionKind>::empty(),
    ensures
        cost_prefix(s, k) == cost_prefix(s, j),
    decreases k - j,
{
    if k > j {
        lemma_prefix_skip(s, j, k - 1);
        assert(with_cost(s, k - 1) == Seq::<ActionKind>::empty());
        assert(cost_prefix(s, k - 1) + Seq::<ActionKind>::empty() == cost_prefix(s, k - 1));
    }
}

/// The default actions of cost `c`, in their listed order.
proof fn lemma_default_bucket(c: int)
    ensures
        with_cost(default_action_seq(), c) == (if c == 1 {
            seq![ActionKind::PressEscape, ActionKind::WaitForUserIdle]
        } else if c == 5 {
            seq![ActionKind::DismissModal]
        } else if c == 10 {
            seq![ActionKind::RefocusBrowser]
        } else if c == 15 {
            seq![ActionKind::MaximizeBrowser]
        } else if c == 20 {
            seq![ActionKind::FocusSiteTab]
        } else if c == 35 {
            seq![ActionKind::NavigateBackToSite]
        } else if c == 50 {
            seq![ActionKind::StartNewChat]
        } else {
            Seq::empty()
        }),
{
    reveal_with_fuel(with_cost, 9);
    let d = default_action_seq();
    assert(d.drop_last() =~= d.take(7));
    assert(d.take(7).drop_last() =~= d.take(6));
    assert(d.take(6).drop_last() =~= d.take(5));
    assert(d.take(5).drop_last() =~= d.take(4));
    assert(d.take(4).drop_last() =~= d.take(3));
    assert(d.take(3).drop_last() =~= d.take(2));
    assert(d.take(2).drop_last() =~= d.take(1));
    assert(d.take(1).drop_last() =~= Seq::<ActionKind>::empty());
    assert(with_cost(default_action_seq(), c) =~= (if c == 1 {
        seq![ActionKind::PressEscape, ActionKind::WaitForUserIdle]
    } else if c == 5 {
        seq![ActionKind::DismissModal]
    } else if c == 10 {
        seq![ActionKind::RefocusBrowser]
    } else if c == 15 {
        seq![ActionKind::MaximizeBrowser]
    } else if c == 20 {
        seq![ActionKind::FocusSiteTab]
    } else if c == 35 {
        seq![ActionKind::NavigateBackToSite]
    } else if c == 50 {
        seq![ActionKind::StartNewChat]
    } else {
        Seq::empty()
    }));
}

/// The default actions in the order the dispatcher tries them: cheapest
/// first (Escape and waiting for the user, then dismissing a modal,
/// refocusing, maximizing, finding the tab, navigating back, and a new
/// chat last), equal costs in their listed order.
pub proof fn law_default_dispatch_order()
    ensures
        cost_order(default_action_seq()) == seq![
            ActionKind::PressEscape,
            ActionKind::WaitForUserIdle,
            ActionKind::DismissModal,
            ActionKind::RefocusBrowser,
            ActionKind::MaximizeBrowser,
            ActionKind::FocusSiteTab,
            ActionKind::NavigateBackToSite,
            ActionKind::StartNewChat,
        ],
{
    let d = default_action_seq();
    assert forall|c: int| 0 <= c < 256 && c != 1 && c != 5 && c != 10 && c != 15 && c != 20 && c != 35 && c != 50
        implies #[trigger] with_cost(d, c) == Seq::<ActionKind>::empty() by {
        lemma_default_bucket(c);
    }
    let e = Seq::<ActionKind>::empty();
    lemma_default_bucket(0);
    assert(cost_prefix(d, 0) == e);
    assert(cost_prefix(d, 1) == cost_prefix(d, 0) + with_cost(d, 0));
    assert(cost_prefix(d, 1) =~= e);
    lemma_default_bucket(1);
    assert(cost_prefix(d, 2) =~= seq![ActionKind::PressEscape, ActionKind::WaitForUserIdle]);
    lemma_prefix_skip(d, 2, 5);
    lemma_default_bucket(5);
    assert(cost_prefix(d, 6) =~= seq![ActionKind::PressEscape, ActionKind::WaitForUserIdle, ActionKind::DismissModal]);
    lemma_prefix_skip(d, 6, 10);
    lemma_default_bucket(10);
    assert(cost_prefix(d, 11) =~= seq![ActionKind::PressEscape, ActionKind::WaitForUserIdle, ActionKind::DismissModal,
        ActionKind::RefocusBrowser]);
    lemma_prefix_skip(d, 11, 15);
    lemma_default_bucket(15);
    assert(cost_prefix(d, 16) =~= seq![ActionKind::PressEscape, ActionKind::WaitForUserIdle, ActionKind::DismissModal,
        ActionKind::RefocusBrowser, ActionKind::MaximizeBrowser]);
    lemma_prefix_skip(d, 16, 20);
    lemma_default_bucket(20);
    assert(cost_prefix(d, 21) =~= seq![ActionKind::PressEscape, ActionKind::WaitForUserIdle, ActionKind::DismissModal,
        ActionKind::RefocusBrowser, ActionKind::MaximizeBrowser, ActionKind::FocusSiteTab]);
    lemma_prefix_skip(d, 21, 35);
    lemma_default_bucket(35);
    assert(cost_prefix(d, 36) =~= seq![ActionKind::PressEscape, ActionKind::WaitForUserIdle, ActionKind::DismissModal,
        ActionKind::RefocusBrowser, ActionKind::MaximizeBrowser, ActionKind::FocusSiteTab, ActionKind::NavigateBackToSite]);
    lemma_prefix_skip(d, 36, 50);
    lemma_default_bucket(50);
    assert(cost_prefix(d, 51) =~= seq![ActionKind::PressEscape, ActionKind::WaitForUserIdle, ActionKind::DismissModal,
        ActionKind::RefocusBrowser, ActionKind::MaximizeBrowser, ActionKind::FocusSiteTab, ActionKind::NavigateBackToSite,
        ActionKind::StartNewChat]);
    lemma_prefix_skip(d, 51, 256);
}

/// The default actions.
pub open spec fn default_action_seq() -> Seq<ActionKind> {
    seq![
        ActionKind::PressEscape,
        ActionKind::DismissModal,
        ActionKind::WaitForUserIdle,
        ActionKind::RefocusBrowser,
        ActionKind::MaximizeBrowser,
        ActionKind::FocusSiteTab,
        ActionKind::NavigateBackToSite,
        ActionKind::StartNewChat,
    ]
}

/// A dispatcher over `s` finds an action for `p` whenever `s` holds one
/// that applies: its first step is then an applicable action, not the end
/// of the dispatch.
pub proof fn law_dispatch_finds_remedy(s: Seq<ActionKind>, p: Problem, k: ActionKind)
    requires
        s.contains(k),
        action_applies(k, p),
    ensures
        next_applicable(cost_order(s), p, 0) < cost_order(s).len(),
        action_applies(cost_order(s)[next_applicable(cost_order(s), p, 0)], p),
{
    broadcast use vstd::seq_lib::group_to_multiset_ensures;
    law_cost_order_permutation(s);
    let c = cost_order(s);
    assert(s.to_multiset().count(k) > 0);
    assert(c.to_multiset().count(k) > 0);
    assert(c.contains(k));
    let j = choose|j: int| 0 <= j < c.len() && c[j] == k;
    lemma_next_applicable_bounds(c, p, 0);
    if next_applicable(c, p, 0) >= c.len() {
        assert(!action_applies(c[j], p));
    }
}

/// Every problem the watchdog raises has a remedy among the default
/// actions; in particular a window out of fullscreen is dispatched straight
/// to `MaximizeBrowser`.
pub proof fn law_default_actions_cover_watchdog(title: String, url: String)
    ensures
        ({
            let c = cost_order(default_action_seq());
            let p = Problem::BrowserNotFullscreen;
            next_applicable(c, p, 0) < c.len() && c[next_applicable(c, p, 0)] == ActionKind::MaximizeBrowser
        }),
        ({
            let c = cost_order(default_action_seq());
            let p = Problem::BrowserNotForeground { seen_title: title };
            next_applicable(c, p, 0) < c.len() && c[next_applicable(c, p, 0)] == ActionKind::RefocusBrowser
        }),
        ({
            let c = cost_order(default_action_seq());
            let p = Problem::WrongUrl { seen_url: url };
            next_applicable(c, p, 0) < c.len() && action_applies(c[next_applicable(c, p, 0)], p)
        }),
        ({
            let c = cost_order(default_action_seq());
            let p = Problem::UserActivity;
            next_applicable(c, p, 0) < c.len() && c[next_applicable(c, p, 0)] == ActionKind::WaitForUserIdle
        }),
{
    let d = default_action_seq();
    assert(d[4] == ActionKind::MaximizeBrowser);
    assert(d[3] == ActionKind::RefocusBrowser);
    assert(d[5] == ActionKind::FocusSiteTab);
    assert(d[2] == ActionKind::WaitForUserIdle);
    law_dispatch_finds_remedy(d, Problem::BrowserNotFullscreen, ActionKind::MaximizeBrowser);
    law_watchdog_problems_have_remedies(cost_order(d)[next_applicable(cost_order(d), Problem::BrowserNotFullscreen, 0)], title, url);
    law_dispatch_finds_remedy(d, Problem::BrowserNotForeground { seen_title: title }, ActionKind::RefocusBrowser);
    law_watchdog_problems_have_remedies(
        cost_order(d)[next_applicable(cost_order(d), Problem::BrowserNotForeground { seen_title: title }, 0)], title, url);
    law_dispatch_finds_remedy(d, Problem::WrongUrl { seen_url: url }, ActionKind::FocusSiteTab);
    law_dispatch_finds_remedy(d, Problem::UserActivity, ActionKind::WaitForUserIdle);
    law_watchdog_problems_have_remedies(cost_order(d)[next_applicable(cost_order(d), Problem::UserActivity, 0)], title, url);
}

/// A dispatch only ever executes actions that apply to its problem.
pub proof fn law_dispatch_executes_applicable(run: DispatchRun)
    requires
        run.wf(),
        !run.finished(),
    ensures
        action_applies(run.actions_spec()[run.cursor_spec()], run.problem_spec()),
{
}

/// A failed dispatch has tried every applicable action, in the order the
/// dispatcher holds them.
pub proof fn law_failed_dispatch_tried_all(run: DispatchRun)
    requires
        run.wf(),
        run.recovered_spec() is None,
        run.cursor_spec() >= run.actions_spec().len(),
    ensures
        run.tried_spec() == applicable_prefix(run.actions_spec(), run.problem_spec(), run.actions_spec().len() as int),
{
}

/// Over a whole dispatch, the first success wins: the dispatch stops at the
/// first `Success`, on the applicable action that reported it, and uses no
/// outcome after it. Without a success, a dispatch that stops before its
/// outcomes run out has walked past every action, so (by the invariant of
/// `DispatchRun`) it has tried every applicable action in the order the
/// dispatcher holds them, which is ascending cost.
pub proof fn law_dispatch_first_success(s: Seq<ActionKind>, p: Problem, max: u8, cursor: int, attempt: int, outs: Seq<RecoveryOutcome>)
    requires
        0 <= cursor,
        cursor < s.len() ==> action_applies(s[cursor], p),
    ensures
        ({
            let r = dispatch_fold(s, p, max, cursor, attempt, outs);
            &&& r.3 <= outs.len()
            &&& r.2 ==> r.3 >= 1 && outs[r.3 - 1] == RecoveryOutcome::Success && 0 <= r.0 < s.len() && action_applies(s[r.0], p)
            &&& forall|j: int| 0 <= j < r.3 - (if r.2 { 1int } else { 0 }) ==> outs[j] != RecoveryOutcome::Success
            &&& !r.2 && r.3 < outs.len() ==> r.0 >= s.len()
        }),
    decreases outs.len(),
{
    if outs.len() > 0 && cursor < s.len() {
        let n = dispatch_step(s, p, max, cursor, attempt, outs[0]);
        lemma_next_applicable_bounds(s, p, cursor + 1);
        if !n.2 {
            let rest = outs.subrange(1, outs.len() as int);
            law_dispatch_first_success(s, p, max, n.0, n.1, rest);
            let r = dispatch_fold(s, p, max, n.0, n.1, rest);
            assert forall|j: int| 0 <= j < r.3 + 1 - (if r.2 { 1int } else { 0 }) implies outs[j] != RecoveryOutcome::Success by {
                if j > 0 {
                    assert(outs[j] == rest[j - 1]);
                }
            }
            if r.2 {
                assert(outs[r.3 as int] == rest[r.3 - 1]);
            }
        }
    }
}

/// No action is executed more than `max_retries + 1` times in one dispatch:
/// the attempt counter of the current action never passes the ceiling.
pub proof fn law_dispatch_attempts_bounded(run: DispatchRun)
    requires
        run.wf(),
    ensures
        run.attempt_spec() <= run.max_retries_spec(),
{
}

/// An unresolved problem, with the actions that were tried.
#[derive(Debug)]
pub struct UnrecoveredProblem {
    pub problem: Problem,
    pub tried: Vec<&'static str>,
}

/// The text an unresolved problem is displayed as.
pub open spec fn unrecovered_text(u: UnrecoveredProblem) -> Seq<char> {
    "unrecovered problem '"@ + problem_text(u.problem) + "', tried ["@ + join_spec(views_of(u.tried@), ", "@) + "]"@
}

impl UnrecoveredProblem {
    /// The human-readable description: the problem and what was tried.
    pub fn describe(&self) -> (r: String)
        ensures
            r@ == unrecovered_text(*self),
    {
        let mut r = String::from_str("unrecovered problem '");
        let p = self.problem.describe();
        r.append(p.as_str());
        r.append("', tried [");
        let j = join_names(&self.tried);
        r.append(j.as_str());
        r.append("]");
        r
    }
}

} // verus!
