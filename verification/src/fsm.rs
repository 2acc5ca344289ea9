//! Execution finite state machine that drives one prompt submission.
//!
//! ```text
//!   Idle ─► Submitting ─► WaitingForGen ─► Generating ─► Complete ─► Copying ─► Done
//!                  ▲ ▲              │             │           │
//!                  │ │              ▼             ▼           ▼
//!                  │ └──────── Retrying ◄───── Error ────────┐
//!                  └──────── StartingNewChat ◄── ChatFull ◄──┘
//!                                  ▼
//!                               Failed
//! ```
//!
//! The waiting, clicking and copying happen outside this module. Here the
//! machine says which work the current state needs (`IterationMachine::work`)
//! and decides the next state from what that work reported
//! (`IterationMachine::advance`). The polling loops are decided the same way:
//! `StabilityWatch` accepts a screen state only once it has been stable long
//! enough, and `judge_generation_poll` decides each poll while generation
//! runs.
use vstd::prelude::*;
use vstd::utf8::encode_utf8;
use crate::adapter::{AdapterError, WebUiState, adapter_error_text};
use crate::recovery::{DispatchResult, Problem, UnrecoveredProblem, problem_text, unrecovered_text};
use crate::text::{chars_of, has_substr, join_names, join_spec, lower_text, str_contains, to_lowercase, views_of};

verus! {

// ── Tunables ────────────────────────────────────────────────────────────────

#[derive(Debug, Clone, Copy)]
pub struct FsmConfig {
    /// How long to wait after `submit` before deciding generation never started.
    pub max_wait_for_gen_ms: u64,
    /// Mandatory no-poll period after submitting.
    pub post_submit_quiet_ms: u64,
    /// Hard cap on total generation time.
    pub max_generation_ms: u64,
    /// Minimum time before Complete is accepted while generating.
    pub min_generation_ms: u64,
    /// Polling interval during the generation phase.
    pub generation_poll_ms: u64,
    /// Maximum retries on `Error` before failing the iteration.
    pub max_retries: u8,
    /// Polling cadence of state waits.
    pub poll_interval_ms: u64,
    /// A state must stay the same for this long before it is accepted.
    pub state_stable_ms: u64,
    /// Number of consecutive Unknown polls before it is treated as a problem.
    pub unknown_polls_threshold: u32,
}

pub open spec fn default_config() -> FsmConfig {
    FsmConfig {
        max_wait_for_gen_ms: 60_000,
        post_submit_quiet_ms: 60_000,
        max_generation_ms: 600_000,
        min_generation_ms: 0,
        generation_poll_ms: 15_000,
        max_retries: 3,
        poll_interval_ms: 500,
        state_stable_ms: 700,
        unknown_polls_threshold: 6,
    }
}

impl Default for FsmConfig {
    fn default() -> (c: Self)
        ensures
            c == default_config(),
    {
        FsmConfig {
            max_wait_for_gen_ms: 60_000,
            post_submit_quiet_ms: 60_000,
            max_generation_ms: 600_000,
            min_generation_ms: 0,
            generation_poll_ms: 15_000,
            max_retries: 3,
            poll_interval_ms: 500,
            state_stable_ms: 700,
            unknown_polls_threshold: 6,
        }
    }
}

// ── Execution states ────────────────────────────────────────────────────────

#[derive(Debug)]
pub enum ExecutionState {
    Idle,
    Submitting,
    WaitingForGen,
    Generating,
    Complete,
    Copying,
    Done(String),
    Error(String),
    Retrying(u8),
    StartingNewChat,
    Failed(String),
}

pub open spec fn exec_state_name(s: ExecutionState) -> Seq<char> {
    match s {
        ExecutionState::Idle => "Idle"@,
        ExecutionState::Submitting => "Submitting"@,
        ExecutionState::WaitingForGen => "WaitingForGen"@,
        ExecutionState::Generating => "Generating"@,
        ExecutionState::Complete => "Complete"@,
        ExecutionState::Copying => "Copying"@,
        ExecutionState::Done(_) => "Done"@,
        ExecutionState::Error(_) => "Error"@,
        ExecutionState::Retrying(_) => "Retrying"@,
        ExecutionState::StartingNewChat => "StartingNewChat"@,
        ExecutionState::Failed(_) => "Failed"@,
    }
}

impl ExecutionState {
    pub fn name(&self) -> (r: &'static str)
        ensures
            r@ == exec_state_name(*self),
    {
        match self {
            ExecutionState::Idle => "Idle",
            ExecutionState::Submitting => "Submitting",
            ExecutionState::WaitingForGen => "WaitingForGen",
            ExecutionState::Generating => "Generating",
            ExecutionState::Complete => "Complete",
            ExecutionState::Copying => "Copying",
            ExecutionState::Done(_) => "Done",
            ExecutionState::Error(_) => "Error",
            ExecutionState::Retrying(_) => "Retrying",
            ExecutionState::StartingNewChat => "StartingNewChat",
            ExecutionState::Failed(_) => "Failed",
        }
    }
}

// ── Public error type ───────────────────────────────────────────────────────

#[derive(Debug)]
pub enum FsmError {
    /// Recovery exhausted all options.
    Unrecovered(UnrecoveredProblem),
    /// Hit the retry ceiling on `Error`.
    RetriesExhausted,
    /// A timeout fired with no state change.
    Timeout(&'static str),
    /// Adapter reported an unrecoverable error.
    Adapter(AdapterError),
    /// Disk write or other infrastructure error.
    Io(String),
}

/// The text an FSM error is displayed as.
pub open spec fn fsm_error_text(e: FsmError) -> Seq<char> {
    match e {
        FsmError::Unrecovered(u) => unrecovered_text(u),
        FsmError::RetriesExhausted => "FSM retries exhausted"@,
        FsmError::Timeout(stage) => "FSM timeout in "@ + stage@,
        FsmError::Adapter(a) => "adapter: "@ + adapter_error_text(a),
        FsmError::Io(s) => "io: "@ + s@,
    }
}

impl FsmError {
    /// The human-readable description of the error.
    pub fn describe(&self) -> (r: String)
        ensures
            r@ == fsm_error_text(*self),
    {
        match self {
            FsmError::Unrecovered(u) => u.describe(),
            FsmError::RetriesExhausted => String::from_str("FSM retries exhausted"),
            FsmError::Timeout(stage) => {
                let mut r = String::from_str("FSM timeout in ");
                r.append(stage);
                r
            },
            FsmError::Adapter(a) => {
                let mut r = String::from_str("adapter: ");
                let d = a.describe();
                r.append(d.as_str());
                r
            },
            FsmError::Io(s) => {
                let mut r = String::from_str("io: ");
                r.append(s.as_str());
                r
            },
        }
    }
}

// ── Response screening ──────────────────────────────────────────────────────

/// A copied text that is short (under 500 bytes of UTF-8) and, lowercased,
/// carries one of Arena's error phrases.
pub open spec fn arena_error_text(text: Seq<char>) -> bool {
    let lower = lower_text(text);
    &&& encode_utf8(text).len() < 500
    &&& (has_substr(lower, "something went wrong"@) || has_substr(lower, "please start a new chat"@)
        || has_substr(lower, "failed to generate"@) || (has_substr(lower, "try again"@)
        && has_substr(lower, "error"@)))
}

/// Whether copied text looks like an Arena error message rather than a
/// real response.
pub fn looks_like_arena_error(text: &str) -> (b: bool)
    ensures
        b == arena_error_text(text@),
{
    let lower = to_lowercase(text);
    let n = text.as_bytes().len();
    let short = n < 500;
    let l = lower.as_str();
    let a = str_contains(l, "something went wrong");
    let b = str_contains(l, "please start a new chat");
    let c = str_contains(l, "failed to generate");
    let d = str_contains(l, "try again");
    let e = str_contains(l, "error");
    short && (a || b || c || (d && e))
}

/// The prompt actually submitted: after a restart in a fresh chat, the
/// previous iteration's output, when there is some, is prepended as
/// context; an empty context leaves the prompt alone.
pub open spec fn effective_prompt_text(prompt: Seq<char>, ctx: Option<Seq<char>>, in_new_chat: bool) -> Seq<char> {
    if in_new_chat && ctx is Some && ctx->0.len() > 0 {
        "═══ PREVIOUS ITERATION OUTPUT (for context) ═══\n"@ + ctx->0 + "\n\n═══ CURRENT PROMPT ═══\n"@
            + prompt
    } else {
        prompt
    }
}

pub open spec fn opt_view(o: Option<&str>) -> Option<Seq<char>> {
    match o {
        Some(s) => Some(s@),
        None => None,
    }
}

// ── Transitions ─────────────────────────────────────────────────────────────

/// One logged state change.
#[derive(Debug, Clone, Copy)]
pub struct Transition {
    pub from: &'static str,
    pub to: &'static str,
}

/// Builds the record of a move from `from` to `to`.
pub fn transition(from: &ExecutionState, to: &ExecutionState) -> (t: Transition)
    ensures
        t.from@ == exec_state_name(*from),
        t.to@ == exec_state_name(*to),
{
    Transition { from: from.name(), to: to.name() }
}

/// The outside work the current state needs.
#[derive(Debug)]
pub enum Work {
    /// Poll until one of `targets` is stable, or time out in `stage`.
    WaitFor { targets: Vec<WebUiState>, timeout_ms: u64, stage: &'static str },
    /// Submit the effective prompt.
    Submit,
    /// Run the post-submit quiet check, then wait for one of `targets`.
    PostSubmitThenWaitFor { targets: Vec<WebUiState>, timeout_ms: u64, stage: &'static str },
    /// Poll the generation until it completes, errors or the chat is full.
    WatchGeneration,
    /// Copy the response.
    Copy,
    /// Sleep before the next step.
    Pause { ms: u64 },
    /// Start a new chat, then wait for Ready.
    StartNewChat { ready_timeout_ms: u64, stage: &'static str },
    /// Nothing outside; call `advance` with `Event::Proceed`.
    Decide,
}

/// What the outside work reported.
#[derive(Debug)]
pub enum Event {
    /// A wait accepted this screen state.
    Observed(WebUiState),
    /// The prompt was submitted.
    Submitted,
    /// The response was copied.
    Copied(String),
    /// The pause is over.
    Paused,
    /// A new chat was started and is ready.
    NewChatReady,
    /// No outside work was needed.
    Proceed,
    /// The work failed.
    Failed(FsmError),
}

/// What the machine decided.
#[derive(Debug)]
pub enum Step {
    /// Log this transition and persist the new state; then carry on.
    Moved(Transition),
    /// Log and persist the transition, then return the error.
    MovedThenFailed(Transition, FsmError),
    /// Persist the current (Done) state, then return the response.
    Completed(String),
    /// Return the error.
    Stopped(FsmError),
}

/// How the loop reacts to an environment problem.
#[derive(Debug)]
pub enum ProblemPlan {
    /// `ChatFull`: log and persist this move to `StartingNewChat`.
    Restart(Transition),
    /// Hand the problem to the recovery dispatcher.
    Recover,
}

/// The mathematical value of an execution state.
pub enum StateView {
    Idle,
    Submitting,
    WaitingForGen,
    Generating,
    Complete,
    Copying,
    Done(Seq<char>),
    Error(Seq<char>),
    Retrying(u8),
    StartingNewChat,
    Failed(Seq<char>),
}

impl View for ExecutionState {
    type V = StateView;

    open spec fn view(&self) -> StateView {
        match self {
            ExecutionState::Idle => StateView::Idle,
            ExecutionState::Submitting => StateView::Submitting,
            ExecutionState::WaitingForGen => StateView::WaitingForGen,
            ExecutionState::Generating => StateView::Generating,
            ExecutionState::Complete => StateView::Complete,
            ExecutionState::Copying => StateView::Copying,
            ExecutionState::Done(r) => StateView::Done(r@),
            ExecutionState::Error(r) => StateView::Error(r@),
            ExecutionState::Retrying(n) => StateView::Retrying(*n),
            ExecutionState::StartingNewChat => StateView::StartingNewChat,
            ExecutionState::Failed(r) => StateView::Failed(r@),
        }
    }
}

pub open spec fn view_name(s: StateView) -> Seq<char> {
    match s {
        StateView::Idle => "Idle"@,
        StateView::Submitting => "Submitting"@,
        StateView::WaitingForGen => "WaitingForGen"@,
        StateView::Generating => "Generating"@,
        StateView::Complete => "Complete"@,
        StateView::Copying => "Copying"@,
        StateView::Done(_) => "Done"@,
        StateView::Error(_) => "Error"@,
        StateView::Retrying(_) => "Retrying"@,
        StateView::StartingNewChat => "StartingNewChat"@,
        StateView::Failed(_) => "Failed"@,
    }
}

pub open spec fn generation_error_reason() -> Seq<char> {
    "generation reported error"@
}

pub open spec fn arena_error_reason() -> Seq<char> {
    "Arena returned error instead of response"@
}

pub open spec fn retries_exhausted_reason(reason: Seq<char>) -> Seq<char> {
    "max retries reached after error: "@ + reason
}

/// The next execution state, retry count and new-chat flag after `ev`.
pub open spec fn next_state(st: StateView, retries: u8, max: u8, in_new_chat: bool, ev: Event) -> (StateView, u8, bool) {
    if ev is Failed {
        (st, retries, in_new_chat)
    } else {
        match st {
            StateView::Idle => (StateView::Submitting, retries, in_new_chat),
            StateView::Submitting => (StateView::WaitingForGen, retries, in_new_chat),
            StateView::WaitingForGen => if ev == Event::Observed(WebUiState::Generating) {
                (StateView::Generating, retries, in_new_chat)
            } else {
                (StateView::Complete, retries, in_new_chat)
            },
            StateView::Generating => if ev == Event::Observed(WebUiState::Complete) {
                (StateView::Complete, retries, in_new_chat)
            } else if ev == Event::Observed(WebUiState::Error) {
                (StateView::Error(generation_error_reason()), retries, in_new_chat)
            } else {
                (StateView::StartingNewChat, retries, in_new_chat)
            },
            StateView::Complete => (StateView::Copying, retries, in_new_chat),
            StateView::Copying => if arena_error_text(ev->Copied_0@) {
                (StateView::Error(arena_error_reason()), retries, in_new_chat)
            } else {
                (StateView::Done(ev->Copied_0@), retries, in_new_chat)
            },
            StateView::Error(reason) => if retries >= max {
                (StateView::Failed(retries_exhausted_reason(reason)), retries, in_new_chat)
            } else {
                (StateView::Retrying((retries + 1) as u8), (retries + 1) as u8, in_new_chat)
            },
            StateView::Retrying(_) => (StateView::StartingNewChat, retries, in_new_chat),
            StateView::StartingNewChat => (StateView::Submitting, retries, true),
            _ => (st, retries, in_new_chat),
        }
    }
}

/// The events each state accepts: the targets its wait was given, or the
/// report of its own work, or a failure.
pub open spec fn event_fits(st: StateView, ev: Event) -> bool {
    match ev {
        Event::Failed(_) => true,
        Event::Observed(s) => match st {
            StateView::Idle => s == WebUiState::Ready || s == WebUiState::Complete,
            StateView::WaitingForGen => s == WebUiState::Generating || s == WebUiState::Complete,
            StateView::Generating => s == WebUiState::Complete || s == WebUiState::Error || s == WebUiState::ChatFull,
            _ => false,
        },
        Event::Submitted => st is Submitting,
        Event::Copied(_) => st is Copying,
        Event::Paused => st is Retrying,
        Event::NewChatReady => st is StartingNewChat,
        Event::Proceed => st is Complete || st is Done || st is Error || st is Failed,
    }
}

/// Outside a new chat the prompt goes out as given: the previous output is
/// never prepended to a first submission. Whatever the context, the
/// prompt closes the submitted text, and a context that is prepended is
/// there whole.
pub proof fn law_prompt_as_given_outside_new_chat(prompt: Seq<char>, ctx: Option<Seq<char>>, in_new_chat: bool)
    ensures
        !in_new_chat ==> effective_prompt_text(prompt, ctx, in_new_chat) == prompt,
        ctx is None ==> effective_prompt_text(prompt, ctx, in_new_chat) == prompt,
        ({
            let t = effective_prompt_text(prompt, ctx, in_new_chat);
            t.len() >= prompt.len() && t.subrange(t.len() - prompt.len(), t.len() as int) == prompt
        }),
        in_new_chat && ctx is Some && ctx->0.len() > 0 ==> {
            let t = effective_prompt_text(prompt, ctx, in_new_chat);
            let c = ctx->0;
            has_substr(t, c)
        },
{
    let t = effective_prompt_text(prompt, ctx, in_new_chat);
    assert(t.subrange(t.len() - prompt.len(), t.len() as int) =~= prompt);
    if ctx is Some && in_new_chat && ctx->0.len() > 0 {
        let c = ctx->0;
        let h = "═══ PREVIOUS ITERATION OUTPUT (for context) ═══\n"@;
        assert(t.subrange(h.len() as int, (h.len() + c.len()) as int) =~= c);
        assert(crate::text::occurs_at(t, c, h.len() as int));
    }
}

/// A machine is in a new chat only after it passed through
/// `StartingNewChat`: no step turns the flag on from any other state, and
/// a machine starts outside a new chat.
pub proof fn law_new_chat_only_after_restart(st: StateView, retries: u8, max: u8, in_new_chat: bool, ev: Event)
    ensures
        next_state(st, retries, max, in_new_chat, ev).2 ==> in_new_chat || st is StartingNewChat,
{
}

/// The machine follows the screen: waiting for generation, a Generating
/// screen moves it to Generating and a Complete one to Complete; while
/// generating, Complete moves it on to copy, Error to the error path and a
/// full chat to a new chat; a copied text becomes the answer unless it is
/// Arena's error text; a failed piece of work changes nothing.
pub proof fn law_machine_follows_screen(retries: u8, max: u8, nc: bool, text: String, e: FsmError)
    ensures
        next_state(StateView::WaitingForGen, retries, max, nc, Event::Observed(WebUiState::Generating)).0 == StateView::Generating,
        next_state(StateView::WaitingForGen, retries, max, nc, Event::Observed(WebUiState::Complete)).0 == StateView::Complete,
        next_state(StateView::Generating, retries, max, nc, Event::Observed(WebUiState::Complete)).0 == StateView::Complete,
        next_state(StateView::Generating, retries, max, nc, Event::Observed(WebUiState::Error)).0 is Error,
        next_state(StateView::Generating, retries, max, nc, Event::Observed(WebUiState::ChatFull)).0 == StateView::StartingNewChat,
        next_state(StateView::Complete, retries, max, nc, Event::Proceed).0 == StateView::Copying,
        arena_error_text(text@) ==> next_state(StateView::Copying, retries, max, nc, Event::Copied(text)).0 is Error,
        !arena_error_text(text@) ==> next_state(StateView::Copying, retries, max, nc, Event::Copied(text)).0 == StateView::Done(text@),
        forall|st: StateView| #[trigger] next_state(st, retries, max, nc, Event::Failed(e)) == (st, retries, nc),
{
}

/// A run of `next_state` over `evs` from `st`: the final state, retry count
/// and new-chat flag, the number of steps that left an error for a retry,
/// and the number that left an error with the retries used up.
pub open spec fn run_tally(st: StateView, retries: u8, max: u8, in_new_chat: bool, evs: Seq<Event>) -> (StateView, u8, bool, nat, nat)
    decreases evs.len(),
{
    if evs.len() == 0 {
        (st, retries, in_new_chat, 0, 0)
    } else {
        let ev = evs[0];
        let n = next_state(st, retries, max, in_new_chat, ev);
        let rest = run_tally(n.0, n.1, max, n.2, evs.subrange(1, evs.len() as int));
        let from_error = st is Error && !(ev is Failed);
        let retried: nat = if from_error && retries < max { 1 } else { 0 };
        let exhausted: nat = if from_error && retries >= max { 1 } else { 0 };
        (rest.0, rest.1, rest.2, rest.3 + retried, rest.4 + exhausted)
    }
}

/// A failed iteration stays failed, whatever follows.
pub proof fn lemma_failed_absorbs(reason: Seq<char>, retries: u8, max: u8, in_new_chat: bool, evs: Seq<Event>)
    ensures
        run_tally(StateView::Failed(reason), retries, max, in_new_chat, evs) == (StateView::Failed(reason), retries, in_new_chat, 0nat, 0nat),
    decreases evs.len(),
{
    if evs.len() > 0 {
        lemma_failed_absorbs(reason, retries, max, in_new_chat, evs.subrange(1, evs.len() as int));
    }
}

/// Over any run, each retry is driven by an error: the retry count grows
/// by exactly the steps that left an error for a retry, and never passes
/// `max`. An error with the retries used up fails the iteration, which
/// then stays failed; that happens at most once, and only after all `max`
/// retries were spent.
pub proof fn law_retry_budget(st: StateView, retries: u8, max: u8, in_new_chat: bool, evs: Seq<Event>)
    requires
        retries <= max,
    ensures
        ({
            let t = run_tally(st, retries, max, in_new_chat, evs);
            &&& t.1 == retries + t.3
            &&& t.1 <= max
            &&& t.4 <= 1
            &&& t.4 == 1 ==> t.0 is Failed && t.1 == max
        }),
    decreases evs.len(),
{
    if evs.len() > 0 {
        let ev = evs[0];
        let n = next_state(st, retries, max, in_new_chat, ev);
        let rest_evs = evs.subrange(1, evs.len() as int);
        law_retry_budget(n.0, n.1, max, n.2, rest_evs);
        if st is Error && !(ev is Failed) && retries >= max {
            lemma_failed_absorbs(n.0->Failed_0, n.1, max, n.2, rest_evs);
        }
    }
}

/// The state of one iteration of the FSM.
pub struct IterationMachine {
    state: ExecutionState,
    retries: u8,
    in_new_chat: bool,
    max_retries: u8,
}

impl IterationMachine {
    pub closed spec fn state_spec(&self) -> StateView {
        self.state@
    }

    pub closed spec fn retries_spec(&self) -> u8 {
        self.retries
    }

    pub closed spec fn in_new_chat_spec(&self) -> bool {
        self.in_new_chat
    }

    pub closed spec fn max_retries_spec(&self) -> u8 {
        self.max_retries
    }

    /// Retries never pass the ceiling, and a Done state only ever holds a
    /// response that does not look like an Arena error.
    pub closed spec fn wf(&self) -> bool {
        &&& self.retries <= self.max_retries
        &&& self.state@ matches StateView::Done(r) ==> !arena_error_text(r)
        &&& self.state@ matches StateView::Retrying(n) ==> n == self.retries
    }

    /// A fresh iteration in `Idle`, with the transition from `<start>` to log.
    pub fn start(config: &FsmConfig) -> (r: (IterationMachine, Transition))
        ensures
            r.0.wf(),
            r.0.state_spec() == StateView::Idle,
            r.0.retries_spec() == 0,
            !r.0.in_new_chat_spec(),
            r.0.max_retries_spec() == config.max_retries,
            r.1.from@ == "<start>"@,
            r.1.to@ == "Idle"@,
    {
        (
            IterationMachine { state: ExecutionState::Idle, retries: 0, in_new_chat: false, max_retries: config.max_retries },
            Transition { from: "<start>", to: "Idle" },
        )
    }

    /// Name of the current state.
    pub fn state_name(&self) -> (r: &'static str)
        ensures
            r@ == view_name(self.state_spec()),
    {
        self.state.name()
    }

    /// Retries used so far.
    pub fn retries(&self) -> (r: u8)
        ensures
            r == self.retries_spec(),
    {
        self.retries
    }

    /// The work the current state needs.
    pub fn work(&self, config: &FsmConfig) -> (w: Work)
        ensures
            self.state_spec() is Idle ==> (w matches Work::WaitFor { targets, timeout_ms, stage }
                && targets@ == seq![WebUiState::Ready, WebUiState::Complete]
                && timeout_ms == config.max_wait_for_gen_ms && stage@ == "Idle→Ready|Complete"@),
            self.state_spec() is Submitting ==> w is Submit,
            self.state_spec() is WaitingForGen ==> (w matches Work::PostSubmitThenWaitFor { targets, timeout_ms, stage }
                && targets@ == seq![WebUiState::Generating, WebUiState::Complete]
                && timeout_ms == config.max_wait_for_gen_ms && stage@ == "WaitingForGen"@),
            self.state_spec() is Generating ==> w is WatchGeneration,
            self.state_spec() is Copying ==> w is Copy,
            self.state_spec() is Retrying ==> (w matches Work::Pause { ms } && ms == 1000),
            self.state_spec() is StartingNewChat ==> (w matches Work::StartNewChat { ready_timeout_ms, stage }
                && ready_timeout_ms == 30_000 && stage@ == "StartingNewChat→Ready"@),
            (self.state_spec() is Complete || self.state_spec() is Done || self.state_spec() is Error
                || self.state_spec() is Failed) ==> w is Decide,
    {
        match &self.state {
            ExecutionState::Idle => Work::WaitFor {
                targets: vec![WebUiState::Ready, WebUiState::Complete],
                timeout_ms: config.max_wait_for_gen_ms,
                stage: "Idle→Ready|Complete",
            },
            ExecutionState::Submitting => Work::Submit,
            ExecutionState::WaitingForGen => Work::PostSubmitThenWaitFor {
                targets: vec![WebUiState::Generating, WebUiState::Complete],
                timeout_ms: config.max_wait_for_gen_ms,
                stage: "WaitingForGen",
            },
            ExecutionState::Generating => Work::WatchGeneration,
            ExecutionState::Copying => Work::Copy,
            ExecutionState::Retrying(_) => Work::Pause { ms: 1000 },
            ExecutionState::StartingNewChat => Work::StartNewChat {
                ready_timeout_ms: 30_000,
                stage: "StartingNewChat→Ready",
            },
            _ => Work::Decide,
        }
    }

    /// The prompt to submit in the current iteration.
    pub fn effective_prompt(&self, prompt: &str, previous_context: Option<&str>) -> (p: String)
        ensures
            p@ == effective_prompt_text(prompt@, opt_view(previous_context), self.in_new_chat_spec()),
            !self.in_new_chat_spec() ==> p@ == prompt@,
            previous_context is None ==> p@ == prompt@,
            p@.len() >= prompt@.len(),
            p@.subrange(p@.len() - prompt@.len(), p@.len() as int) == prompt@,
    {
        if self.in_new_chat {
            match previous_context {
                Some(ctx_text) if chars_of(ctx_text).len() > 0 => {
                    let mut p = String::from_str("═══ PREVIOUS ITERATION OUTPUT (for context) ═══\n");
                    p.append(ctx_text);
                    p.append("\n\n═══ CURRENT PROMPT ═══\n");
                    p.append(prompt);
                    p
                },
                _ => String::from_str(prompt),
            }
        } else {
            String::from_str(prompt)
        }
    }

    /// React to an environment problem found before the state's work.
    pub fn on_problem(&mut self, p: &Problem) -> (plan: ProblemPlan)
        requires
            old(self).wf(),
        ensures
            final(self).wf(),
            final(self).retries_spec() == old(self).retries_spec(),
            final(self).in_new_chat_spec() == old(self).in_new_chat_spec(),
            final(self).max_retries_spec() == old(self).max_retries_spec(),
            *p is ChatFull ==> (plan matches ProblemPlan::Restart(t)
                && final(self).state_spec() == StateView::StartingNewChat
                && t.from@ == view_name(old(self).state_spec()) && t.to@ == "StartingNewChat"@),
            !(*p is ChatFull) ==> plan is Recover && final(self).state_spec() == old(self).state_spec(),
    {
        if p.is_chat_full() {
            let from = self.state.name();
            self.state = ExecutionState::StartingNewChat;
            ProblemPlan::Restart(Transition { from, to: "StartingNewChat" })
        } else {
            ProblemPlan::Recover
        }
    }

    /// Decide the next state from what the current state's work reported.
    /// Whether the current state accepts `ev`: the targets of its wait, the
    /// report of its own work, or a failure.
    pub fn accepts(&self, ev: &Event) -> (b: bool)
        ensures
            b == event_fits(self.state_spec(), *ev),
    {
        match ev {
            Event::Failed(_) => true,
            Event::Observed(s) => match &self.state {
                ExecutionState::Idle => *s == WebUiState::Ready || *s == WebUiState::Complete,
                ExecutionState::WaitingForGen => *s == WebUiState::Generating || *s == WebUiState::Complete,
                ExecutionState::Generating => *s == WebUiState::Complete || *s == WebUiState::Error || *s == WebUiState::ChatFull,
                _ => false,
            },
            Event::Submitted => match &self.state {
                ExecutionState::Submitting => true,
                _ => false,
            },
            Event::Copied(_) => match &self.state {
                ExecutionState::Copying => true,
                _ => false,
            },
            Event::Paused => match &self.state {
                ExecutionState::Retrying(_) => true,
                _ => false,
            },
            Event::NewChatReady => match &self.state {
                ExecutionState::StartingNewChat => true,
                _ => false,
            },
            Event::Proceed => match &self.state {
                ExecutionState::Complete | ExecutionState::Done(_) | ExecutionState::Error(_) | ExecutionState::Failed(_) => true,
                _ => false,
            },
        }
    }

    pub fn advance(&mut self, ev: Event) -> (step: Step)
        requires
            old(self).wf(),
            event_fits(old(self).state_spec(), ev),
        ensures
            final(self).wf(),
            final(self).max_retries_spec() == old(self).max_retries_spec(),
            (final(self).state_spec(), final(self).retries_spec(), final(self).in_new_chat_spec())
                == next_state(old(self).state_spec(), old(self).retries_spec(), old(self).max_retries_spec(), old(self).in_new_chat_spec(), ev),
            ev matches Event::Failed(e) ==> step == Step::Stopped(e),
            old(self).state_spec() matches StateView::Done(r)
                ==> (!(ev is Failed) ==> (step matches Step::Completed(x) && x@ == r)),
            old(self).state_spec() matches StateView::Failed(reason)
                ==> (!(ev is Failed) ==> (step matches Step::Stopped(FsmError::Io(x)) && x@ == reason)),
            !(ev is Failed) && old(self).state_spec() is Error && old(self).retries_spec() >= old(self).max_retries_spec()
                ==> (step matches Step::MovedThenFailed(t, e) && e is RetriesExhausted
                && t.from@ == "Error"@ && t.to@ == "Failed"@),
            !(ev is Failed) && !(old(self).state_spec() is Done) && !(old(self).state_spec() is Failed)
                && !(old(self).state_spec() is Error && old(self).retries_spec() >= old(self).max_retries_spec())
                ==> (step matches Step::Moved(t) && t.from@ == view_name(old(self).state_spec())
                && t.to@ == view_name(final(self).state_spec())),
    {
        if let Event::Failed(e) = ev {
            return Step::Stopped(e);
        }
        let from = self.state.name();
        let next = match &self.state {
            ExecutionState::Done(r) => {
                return Step::Completed(r.clone());
            },
            ExecutionState::Failed(reason) => {
                return Step::Stopped(FsmError::Io(reason.clone()));
            },
            ExecutionState::Idle => ExecutionState::Submitting,
            ExecutionState::Submitting => ExecutionState::WaitingForGen,
            ExecutionState::WaitingForGen => match ev {
                Event::Observed(WebUiState::Generating) => ExecutionState::Generating,
                _ => ExecutionState::Complete,
            },
            ExecutionState::Generating => match ev {
                Event::Observed(WebUiState::Complete) => ExecutionState::Complete,
                Event::Observed(WebUiState::Error) => ExecutionState::Error(
                    String::from_str("generation reported error"),
                ),
                _ => ExecutionState::StartingNewChat,
            },
            ExecutionState::Complete => ExecutionState::Copying,
            ExecutionState::Copying => match ev {
                Event::Copied(r) => {
                    if looks_like_arena_error(r.as_str()) {
                        ExecutionState::Error(String::from_str("Arena returned error instead of response"))
                    } else {
                        ExecutionState::Done(r)
                    }
                },
                _ => ExecutionState::Copying,
            },
            ExecutionState::Error(reason) => {
                if self.retries >= self.max_retries {
                    let mut msg = String::from_str("max retries reached after error: ");
                    msg.append(reason.as_str());
                    self.state = ExecutionState::Failed(msg);
                    return Step::MovedThenFailed(Transition { from, to: "Failed" }, FsmError::RetriesExhausted);
                }
                self.retries = self.retries + 1;
                ExecutionState::Retrying(self.retries)
            },
            ExecutionState::Retrying(_) => ExecutionState::StartingNewChat,
            ExecutionState::StartingNewChat => {
                self.in_new_chat = true;
                ExecutionState::Submitting
            },
        };
        let to = next.name();
        self.state = next;
        Step::Moved(Transition { from, to })
    }
}

// ── Laws of the iteration machine ──────────────────────────────────────────

/// Retries never pass the configured ceiling.
pub proof fn law_retries_bounded(m: IterationMachine)
    requires
        m.wf(),
    ensures
        m.retries_spec() <= m.max_retries_spec(),
{
}

/// The machine only ever holds (and so only ever returns) a response that
/// does not look like an Arena error message.
pub proof fn law_done_is_not_an_error_text(m: IterationMachine)
    requires
        m.wf(),
        m.state_spec() is Done,
    ensures
        !arena_error_text(m.state_spec()->Done_0),
{
}

/// Once the iteration has restarted in a fresh chat, it stays marked as
/// being in a fresh chat; retries only ever grow.
pub proof fn law_new_chat_and_retries_monotone(st: StateView, retries: u8, max: u8, in_new_chat: bool, ev: Event)
    ensures
        in_new_chat ==> next_state(st, retries, max, in_new_chat, ev).2,
        next_state(st, retries, max, in_new_chat, ev).1 >= retries || retries == u8::MAX,
{
}

/// Every Error is either retried (one more retry is used) or, once the
/// retries are spent, ends the iteration in Failed.
pub proof fn law_error_retried_or_failed(reason: Seq<char>, retries: u8, max: u8, in_new_chat: bool)
    requires
        retries <= max,
    ensures
        retries < max ==> next_state(StateView::Error(reason), retries, max, in_new_chat, Event::Proceed)
            == (StateView::Retrying((retries + 1) as u8), (retries + 1) as u8, in_new_chat),
        retries == max ==> next_state(StateView::Error(reason), retries, max, in_new_chat, Event::Proceed).0
            is Failed,
{
}

// ── Waiting for a stable state ─────────────────────────────────────────────

/// Whether `s` occurs in `targets`.
pub open spec fn is_target(targets: Seq<WebUiState>, s: WebUiState) -> bool {
    exists|i: int| 0 <= i < targets.len() && targets[i] == s
}

/// The polling state of one wait for any of a set of screen states.
///
/// A state is accepted only once it has been observed without change for
/// `stable_for_ms`; this filters render flicker. `Unknown` observed
/// `unknown_threshold` times in a row asks for recovery.
pub struct StabilityWatch {
    targets: Vec<WebUiState>,
    deadline_ms: u64,
    stable_for_ms: u64,
    unknown_threshold: u32,
    last_seen: Option<WebUiState>,
    last_change_ms: u64,
    unknown_streak: u32,
}

impl StabilityWatch {
    pub closed spec fn targets_spec(&self) -> Seq<WebUiState> {
        self.targets@
    }

    pub closed spec fn deadline_spec(&self) -> u64 {
        self.deadline_ms
    }

    pub closed spec fn stable_for_spec(&self) -> u64 {
        self.stable_for_ms
    }

    pub closed spec fn threshold_spec(&self) -> u32 {
        self.unknown_threshold
    }

    pub closed spec fn last_seen_spec(&self) -> Option<WebUiState> {
        self.last_seen
    }

    pub closed spec fn last_change_spec(&self) -> u64 {
        self.last_change_ms
    }

    pub closed spec fn streak_spec(&self) -> u32 {
        self.unknown_streak
    }

    /// The Unknown streak stays below the threshold (or at zero when the
    /// threshold is zero).
    pub closed spec fn wf(&self) -> bool {
        self.unknown_streak == 0 || self.unknown_streak < self.unknown_threshold
    }

    /// Start waiting at `now_ms` for any of `targets`, for at most
    /// `timeout_ms`.
    pub fn new(targets: Vec<WebUiState>, now_ms: u64, timeout_ms: u64, config: &FsmConfig) -> (w: Self)
        requires
            now_ms + timeout_ms <= u64::MAX,
        ensures
            w.wf(),
            w.targets_spec() == targets@,
            w.deadline_spec() == now_ms + timeout_ms,
            w.stable_for_spec() == config.state_stable_ms,
            w.threshold_spec() == config.unknown_polls_threshold,
            w.last_seen_spec() is None,
            w.last_change_spec() == now_ms,
            w.streak_spec() == 0,
    {
        StabilityWatch {
            targets,
            deadline_ms: now_ms + timeout_ms,
            stable_for_ms: config.state_stable_ms,
            unknown_threshold: config.unknown_polls_threshold,
            last_seen: None,
            last_change_ms: now_ms,
            unknown_streak: 0,
        }
    }

    /// Whether the wait has run out of time at `now_ms`.
    pub fn expired(&self, now_ms: u64) -> (b: bool)
        ensures
            b == (now_ms >= self.deadline_spec()),
    {
        now_ms >= self.deadline_ms
    }

    /// After a successful recovery, stability tracking starts over.
    pub fn restart_after_recovery(&mut self, now_ms: u64)
        ensures
            final(self).wf() == old(self).wf(),
            final(self).last_seen_spec() is None,
            final(self).last_change_spec() == now_ms,
            final(self).targets_spec() == old(self).targets_spec(),
            final(self).deadline_spec() == old(self).deadline_spec(),
            final(self).stable_for_spec() == old(self).stable_for_spec(),
            final(self).threshold_spec() == old(self).threshold_spec(),
            final(self).streak_spec() == old(self).streak_spec(),
    {
        self.last_seen = None;
        self.last_change_ms = now_ms;
    }

    /// Count a detection towards the Unknown streak. Returns whether the
    /// streak reached the threshold, in which case the screen must be
    /// recovered as `Problem::UnknownScreen` (and the streak starts over).
    pub fn note_detection(&mut self, detected: WebUiState) -> (needs_recovery: bool)
        requires
            old(self).wf(),
        ensures
            final(self).wf(),
            final(self).targets_spec() == old(self).targets_spec(),
            final(self).deadline_spec() == old(self).deadline_spec(),
            final(self).stable_for_spec() == old(self).stable_for_spec(),
            final(self).threshold_spec() == old(self).threshold_spec(),
            final(self).last_seen_spec() == old(self).last_seen_spec(),
            final(self).last_change_spec() == old(self).last_change_spec(),
            detected != WebUiState::Unknown ==> !needs_recovery && final(self).streak_spec() == 0,
            detected == WebUiState::Unknown ==> needs_recovery == (old(self).streak_spec() + 1
                >= old(self).threshold_spec()),
            detected == WebUiState::Unknown && needs_recovery ==> final(self).streak_spec() == 0,
            detected == WebUiState::Unknown && !needs_recovery ==> final(self).streak_spec()
                == old(self).streak_spec() + 1,
    {
        if detected == WebUiState::Unknown {
            self.unknown_streak = self.unknown_streak + 1;
            if self.unknown_streak >= self.unknown_threshold {
                self.unknown_streak = 0;
                true
            } else {
                false
            }
        } else {
            self.unknown_streak = 0;
            false
        }
    }

    /// Record the detection at `now_ms` and accept it if it is a target that
    /// has not changed for at least `stable_for_ms`.
    pub fn settle(&mut self, detected: WebUiState, now_ms: u64) -> (accepted: Option<WebUiState>)
        ensures
            final(self).wf() == old(self).wf(),
            final(self).targets_spec() == old(self).targets_spec(),
            final(self).deadline_spec() == old(self).deadline_spec(),
            final(self).stable_for_spec() == old(self).stable_for_spec(),
            final(self).threshold_spec() == old(self).threshold_spec(),
            final(self).streak_spec() == old(self).streak_spec(),
            final(self).last_seen_spec() == Some(detected),
            final(self).last_change_spec() == if old(self).last_seen_spec() == Some(detected) {
                old(self).last_change_spec()
            } else {
                now_ms
            },
            accepted == if is_target(old(self).targets_spec(), detected) && (if now_ms
                >= final(self).last_change_spec() {
                now_ms - final(self).last_change_spec()
            } else {
                0
            }) >= old(self).stable_for_spec() {
                Some(detected)
            } else {
                None
            },
    {
        if self.last_seen != Some(detected) {
            self.last_seen = Some(detected);
            self.last_change_ms = now_ms;
        }
        let elapsed = now_ms.saturating_sub(self.last_change_ms);
        let mut found = false;
        let mut i: usize = 0;
        while i < self.targets.len()
            invariant
                i <= self.targets.len(),
                found == exists|j: int| 0 <= j < i && self.targets@[j] == detected,
            decreases self.targets.len() - i,
        {
            if self.targets[i] == detected {
                found = true;
            }
            i += 1;
        }
        if found && elapsed >= self.stable_for_ms {
            Some(detected)
        } else {
            None
        }
    }
}

// ── Watching a generation ───────────────────────────────────────────────────

/// The decision on one poll while a generation runs.
#[derive(Debug, Clone, Copy, PartialEq, Eq, Structural)]
pub enum GenerationVerdict {
    /// Stop waiting with this state.
    Finish(WebUiState),
    /// Complete was seen late enough: confirm with a second poll.
    Confirm,
    /// Keep polling.
    KeepWaiting,
}

/// Whether the generation has run past its hard cap.
pub fn generation_timed_out(elapsed_ms: u64, config: &FsmConfig) -> (b: bool)
    ensures
        b == (elapsed_ms >= config.max_generation_ms),
{
    elapsed_ms >= config.max_generation_ms
}

/// Decide one generation poll: errors and a full chat end the wait at once;
/// Complete is only trusted after `min_generation_ms` and then confirmed.
pub fn judge_generation_poll(detected: WebUiState, elapsed_ms: u64, config: &FsmConfig) -> (v: GenerationVerdict)
    ensures
        v == if detected == WebUiState::Error {
            GenerationVerdict::Finish(WebUiState::Error)
        } else if detected == WebUiState::ChatFull {
            GenerationVerdict::Finish(WebUiState::ChatFull)
        } else if detected == WebUiState::Complete && elapsed_ms >= config.min_generation_ms {
            GenerationVerdict::Confirm
        } else {
            GenerationVerdict::KeepWaiting
        },
{
    match detected {
        WebUiState::Error => GenerationVerdict::Finish(WebUiState::Error),
        WebUiState::ChatFull => GenerationVerdict::Finish(WebUiState::ChatFull),
        WebUiState::Complete => {
            if elapsed_ms >= config.min_generation_ms {
                GenerationVerdict::Confirm
            } else {
                GenerationVerdict::KeepWaiting
            }
        },
        _ => GenerationVerdict::KeepWaiting,
    }
}

/// The confirmation poll accepts only Complete.
pub fn judge_confirmation(confirm: WebUiState) -> (r: Option<WebUiState>)
    ensures
        r == if confirm == WebUiState::Complete {
            Some(WebUiState::Complete)
        } else {
            None
        },
{
    if confirm == WebUiState::Complete {
        Some(WebUiState::Complete)
    } else {
        None
    }
}

// ── Recovery hand-off ───────────────────────────────────────────────────────

/// Map a dispatch result to the FSM's view: the name of the action that
/// resolved the problem, or the `Unrecovered` error listing what was tried.
pub fn recovery_verdict(p: &Problem, result: DispatchResult) -> (r: Result<&'static str, FsmError>)
    ensures
        result matches DispatchResult::Recovered { action } ==> r == Ok::<&'static str, FsmError>(action),
        result matches DispatchResult::Failed { tried } ==> r == Err::<&'static str, FsmError>(
            FsmError::Unrecovered(UnrecoveredProblem { problem: *p, tried }),
        ),
{
    match result {
        DispatchResult::Recovered { action } => Ok(action),
        DispatchResult::Failed { tried } => Err(
            FsmError::Unrecovered(UnrecoveredProblem { problem: p.duplicate(), tried }),
        ),
    }
}

/// The log note for a dispatch result.
pub fn recovery_note(p: &Problem, result: &DispatchResult) -> (r: String)
    ensures
        result is Recovered ==> r@ == "resolved problem: "@ + problem_text(*p),
        result matches DispatchResult::Failed { tried } ==> r@ == "could not resolve "@ + problem_text(*p)
            + "; tried ["@ + join_spec(views_of(tried@), ", "@) + "]"@,
{
    match result {
        DispatchResult::Recovered { .. } => {
            let mut r = String::from_str("resolved problem: ");
            let d = p.describe();
            r.append(d.as_str());
            r
        },
        DispatchResult::Failed { tried } => {
            let mut r = String::from_str("could not resolve ");
            let d = p.describe();
            r.append(d.as_str());
            r.append("; tried [");
            let j = join_names(tried);
            r.append(j.as_str());
            r.append("]");
            r
        },
    }
}

} // verus!
