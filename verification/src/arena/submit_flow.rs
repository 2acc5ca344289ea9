//! Submitting a prompt to Arena as a checked protocol: the user's clipboard
//! is saved and replaced by the prompt; the prompt is pasted at each input
//! position in turn until the paste registers; Send is clicked at each
//! candidate (then Return is pressed) until the send is confirmed; the
//! clipboard is restored; and the outcome is reported. The caller performs
//! each requested action and answers with what it observed.
use vstd::prelude::*;
use crate::adapter::AdapterError;
use crate::arena::submit::{PasteAttempt, send_candidates, send_candidates_spec, url_shows_conversation};
use crate::text::{has_substr, int_text, push_int};

verus! {

/// Where the submission stands: which observation it waits for.
#[derive(Clone, Copy, Debug, PartialEq, Eq, Structural)]
pub enum SubmitPhase {
    /// The clipboard was to be saved and given the prompt.
    Preparing,
    /// Paste attempt `index` was made; whether it registered is due.
    Pasting { index: usize },
    /// The last paste was undone and the prompt put back on the clipboard,
    /// before attempt `index`.
    Resetting { index: usize },
    /// Whether the page is a conversation, and where Send was found, are due.
    Locating,
    /// Send candidate `index` was clicked.
    ClickingSend { index: usize },
    /// The pointer was moved off the button after that click.
    MovingAway { index: usize },
    /// The check after a send (a click at candidate `index`, or Return) is due.
    Checking { index: usize, by_return: bool },
    /// The input cleared; whether generation started is due.
    Confirming { index: usize, by_return: bool },
    /// Return was pressed as a last resort.
    Returning,
    /// The clipboard was to be restored; the outcome follows.
    Restoring,
    /// The outcome was reported.
    Finished,
}

/// How a submission ends once the clipboard is restored.
pub enum SubmitEnd {
    /// The send was confirmed.
    Sent,
    /// No paste attempt registered.
    PasteFailed,
    /// The prompt was pasted but no send was confirmed.
    Unconfirmed,
    /// A click failed with this message.
    ClickFailed(String),
}

/// The submission's state.
pub struct SubmitState {
    pub phase: SubmitPhase,
    /// Where to paste, in order.
    pub attempts: Vec<PasteAttempt>,
    /// The first paste position and the code-mode input's centre, which a
    /// failed paste names.
    pub first: (i32, i32),
    pub code_center: (i32, i32),
    /// The paste that registered was in the code-mode input.
    pub code_mode: bool,
    /// The page was a conversation when sending.
    pub in_chat: bool,
    /// Where to click Send, in order.
    pub candidates: Vec<(i32, i32)>,
    /// How the submission ends, once the clipboard is restored.
    pub pending: SubmitEnd,
    /// A send was confirmed: a conversation URL on a fresh page, or the
    /// input cleared and generation started in a conversation.
    pub confirmed: bool,
}

/// What the caller observed after performing the requested action.
pub enum SubmitEvent {
    /// How an action that can fail went (clipboard, click, pointer move,
    /// Return, restore).
    Outcome(Result<(), String>),
    /// Whether the paste registered, or why the click before it failed.
    Pasted(Result<bool, String>),
    /// Whether the page is a conversation; the send icon found along the
    /// prompt and the one found by matching on a fresh page; the calibrated
    /// send button's centre.
    SendFound { in_chat: bool, found_in_chat: Option<(i32, i32)>, found_fresh: Option<(i32, i32)>, calibrated: (i32, i32) },
    /// The search for the send icon could not read the screen.
    SendSearchFailed(AdapterError),
    /// Whether the input's text was consumed.
    InputCleared(bool),
    /// Whether generation visibly started, or why that could not be read.
    Started(Result<bool, AdapterError>),
    /// The active tab's URL.
    Url(String),
}

/// What the caller should do next.
pub enum SubmitAction {
    /// Save the clipboard's text and put the prompt on the clipboard.
    PrepareClipboard,
    /// Click there, paste, and report whether the paste registered.
    ClickAndPaste(PasteAttempt),
    /// Undo the last paste and put the prompt on the clipboard again.
    UndoAndReset,
    /// Report whether the page is a conversation and where Send shows.
    LocateSend,
    /// Note the input's look, then click Send there.
    ClickSend((i32, i32)),
    /// Move the pointer off the prompt's button.
    MoveAway,
    /// Note the input's look, then press Return.
    PressReturn,
    /// Report whether the input's text was consumed.
    MeasureInput,
    /// Report whether generation visibly started.
    ConfirmStarted,
    /// Report the tab's URL.
    ReadUrl,
    /// Put the saved text back on the clipboard.
    RestoreClipboard,
    /// The submission's outcome.
    Finish(Result<(), AdapterError>),
}

// ── Messages ────────────────────────────────────────────────────────────────

pub open spec fn paste_failed_msg(first: (i32, i32), code: (i32, i32)) -> Seq<char> {
    "prompt paste failed at ("@ + int_text(first.0 as int) + ","@ + int_text(first.1 as int) + ") and code-mode ("@
        + int_text(code.0 as int) + ","@ + int_text(code.1 as int)
        + ") with ±offsets. Check the run screenshots folder to see actual textarea position."@
}

pub open spec fn unconfirmed_msg() -> Seq<char> {
    "prompt pasted but send could not be confirmed; refusing to continue with stale input"@
}

pub open spec fn submit_unexpected_msg() -> Seq<char> {
    "submit: the event does not answer the pending step"@
}

/// The outcome reported for an ending.
pub open spec fn end_result(s: SubmitState, r: Result<(), AdapterError>) -> bool {
    match s.pending {
        SubmitEnd::Sent => r is Ok,
        SubmitEnd::PasteFailed => r matches Err(AdapterError::Input(m)) && m@ == paste_failed_msg(s.first, s.code_center),
        SubmitEnd::Unconfirmed => r matches Err(AdapterError::Input(m)) && m@ == unconfirmed_msg(),
        SubmitEnd::ClickFailed(c) => r matches Err(AdapterError::Input(m)) && m@ == c@,
    }
}

// ── The protocol ────────────────────────────────────────────────────────────

/// `t` keeps what `s` was set up with.
pub open spec fn same_setup(s: SubmitState, t: SubmitState) -> bool {
    &&& t.attempts@ == s.attempts@
    &&& t.first == s.first
    &&& t.code_center == s.code_center
}

/// `t` is `s` moved on to `phase`, nothing else changed.
pub open spec fn carried(s: SubmitState, t: SubmitState, phase: SubmitPhase) -> bool {
    &&& same_setup(s, t)
    &&& t.phase == phase
    &&& t.code_mode == s.code_mode
    &&& t.in_chat == s.in_chat
    &&& t.candidates@ == s.candidates@
    &&& t.pending == s.pending
    &&& t.confirmed == s.confirmed
}

/// `t` restores the clipboard next, to end as `end` says.
pub open spec fn restoring(s: SubmitState, t: SubmitState, a: SubmitAction, end: spec_fn(SubmitEnd) -> bool, confirmed: bool) -> bool {
    &&& same_setup(s, t)
    &&& t.phase == SubmitPhase::Restoring
    &&& t.code_mode == s.code_mode
    &&& t.in_chat == s.in_chat
    &&& t.candidates@ == s.candidates@
    &&& end(t.pending)
    &&& t.confirmed == confirmed
    &&& a is RestoreClipboard
}

/// The submission ends at once with `r`, the clipboard left as it is.
pub open spec fn stopped(s: SubmitState, t: SubmitState, a: SubmitAction, r: spec_fn(Result<(), AdapterError>) -> bool) -> bool {
    &&& same_setup(s, t)
    &&& t.phase == SubmitPhase::Finished
    &&& t.code_mode == s.code_mode
    &&& t.in_chat == s.in_chat
    &&& t.candidates@ == s.candidates@
    &&& t.pending == s.pending
    &&& t.confirmed == s.confirmed
    &&& a matches SubmitAction::Finish(x) && r(x)
}

pub open spec fn unexpected_step(s: SubmitState, t: SubmitState, a: SubmitAction) -> bool {
    stopped(s, t, a, |x: Result<(), AdapterError>| x matches Err(AdapterError::Other(m)) && m@ == submit_unexpected_msg())
}

/// After the check at candidate `k` (or after Return) failed: the next
/// candidate, else Return, else give up once the clipboard is restored.
pub open spec fn try_next(s: SubmitState, t: SubmitState, a: SubmitAction, k: int, by_return: bool) -> bool {
    if by_return {
        restoring(s, t, a, |p: SubmitEnd| p is Unconfirmed, s.confirmed)
    } else if k + 1 < s.candidates.len() {
        carried(s, t, SubmitPhase::ClickingSend { index: (k + 1) as usize }) && a == SubmitAction::ClickSend(s.candidates@[k + 1])
    } else {
        carried(s, t, SubmitPhase::Returning) && a is PressReturn
    }
}

/// The check after a send: the input in a conversation, the URL on a fresh page.
pub open spec fn check_call(s: SubmitState, a: SubmitAction) -> bool {
    if s.in_chat {
        a is MeasureInput
    } else {
        a is ReadUrl
    }
}

/// One step of a submission: from the pending step and what was observed,
/// the next state `t` and action `a`. An observation that does not answer
/// the pending step ends the submission with an error.
pub open spec fn submit_rel(s: SubmitState, e: SubmitEvent, t: SubmitState, a: SubmitAction) -> bool {
    match s.phase {
        SubmitPhase::Preparing => match e {
            SubmitEvent::Outcome(Ok(())) => if s.attempts.len() > 0 {
                carried(s, t, SubmitPhase::Pasting { index: 0 }) && a == SubmitAction::ClickAndPaste(s.attempts@[0])
            } else {
                restoring(s, t, a, |p: SubmitEnd| p is PasteFailed, s.confirmed)
            },
            SubmitEvent::Outcome(Err(m)) => stopped(s, t, a, |x: Result<(), AdapterError>| x matches Err(AdapterError::Clipboard(c)) && c@ == m@),
            _ => unexpected_step(s, t, a),
        },
        SubmitPhase::Pasting { index } => match e {
            SubmitEvent::Pasted(Ok(true)) => if index < s.attempts.len() {
                &&& same_setup(s, t)
                &&& t.phase == SubmitPhase::Locating
                &&& t.code_mode == s.attempts@[index as int].code_mode
                &&& t.in_chat == s.in_chat
                &&& t.candidates@ == s.candidates@
                &&& t.pending == s.pending
                &&& t.confirmed == s.confirmed
                &&& a is LocateSend
            } else {
                unexpected_step(s, t, a)
            },
            SubmitEvent::Pasted(Ok(false)) => if index + 1 < s.attempts.len() {
                carried(s, t, SubmitPhase::Resetting { index: (index + 1) as usize }) && a is UndoAndReset
            } else {
                restoring(s, t, a, |p: SubmitEnd| p is PasteFailed, s.confirmed)
            },
            SubmitEvent::Pasted(Err(m)) => restoring(s, t, a, |p: SubmitEnd| p matches SubmitEnd::ClickFailed(c) && c@ == m@, s.confirmed),
            _ => unexpected_step(s, t, a),
        },
        SubmitPhase::Resetting { index } => match e {
            SubmitEvent::Outcome(Ok(())) => if index < s.attempts.len() {
                carried(s, t, SubmitPhase::Pasting { index }) && a == SubmitAction::ClickAndPaste(s.attempts@[index as int])
            } else {
                unexpected_step(s, t, a)
            },
            SubmitEvent::Outcome(Err(m)) => stopped(s, t, a, |x: Result<(), AdapterError>| x matches Err(AdapterError::Clipboard(c)) && c@ == m@),
            _ => unexpected_step(s, t, a),
        },
        SubmitPhase::Locating => match e {
            SubmitEvent::SendFound { in_chat, found_in_chat, found_fresh, calibrated } => {
                let cands = send_candidates_spec(s.code_mode, in_chat, found_in_chat, found_fresh, calibrated);
                &&& same_setup(s, t)
                &&& t.code_mode == s.code_mode
                &&& t.in_chat == in_chat
                &&& t.candidates@ == cands
                &&& t.pending == s.pending
                &&& t.confirmed == s.confirmed
                &&& if cands.len() > 0 {
                    t.phase == (SubmitPhase::ClickingSend { index: 0 }) && a == SubmitAction::ClickSend(cands[0])
                } else {
                    t.phase == SubmitPhase::Returning && a is PressReturn
                }
            },
            SubmitEvent::SendSearchFailed(err) => stopped(s, t, a, |x: Result<(), AdapterError>| x == Err::<(), AdapterError>(err)),
            _ => unexpected_step(s, t, a),
        },
        SubmitPhase::ClickingSend { index } => match e {
            SubmitEvent::Outcome(Ok(())) => carried(s, t, SubmitPhase::MovingAway { index }) && a is MoveAway,
            SubmitEvent::Outcome(Err(m)) => restoring(s, t, a, |p: SubmitEnd| p matches SubmitEnd::ClickFailed(c) && c@ == m@, s.confirmed),
            _ => unexpected_step(s, t, a),
        },
        SubmitPhase::MovingAway { index } => match e {
            SubmitEvent::Outcome(Ok(())) => carried(s, t, SubmitPhase::Checking { index, by_return: false }) && check_call(s, a),
            SubmitEvent::Outcome(Err(m)) => stopped(s, t, a, |x: Result<(), AdapterError>| x matches Err(AdapterError::Input(c)) && c@ == m@),
            _ => unexpected_step(s, t, a),
        },
        SubmitPhase::Checking { index, by_return } => match e {
            SubmitEvent::InputCleared(cleared) => if !s.in_chat {
                unexpected_step(s, t, a)
            } else if cleared {
                carried(s, t, SubmitPhase::Confirming { index, by_return }) && a is ConfirmStarted
            } else {
                try_next(s, t, a, index as int, by_return)
            },
            SubmitEvent::Url(u) => if s.in_chat {
                unexpected_step(s, t, a)
            } else if has_substr(u@, "/c/"@) {
                restoring(s, t, a, |p: SubmitEnd| p is Sent, true)
            } else {
                try_next(s, t, a, index as int, by_return)
            },
            _ => unexpected_step(s, t, a),
        },
        SubmitPhase::Confirming { index, by_return } => match e {
            SubmitEvent::Started(Ok(true)) => restoring(s, t, a, |p: SubmitEnd| p is Sent, true),
            SubmitEvent::Started(Ok(false)) => try_next(s, t, a, index as int, by_return),
            SubmitEvent::Started(Err(err)) => stopped(s, t, a, |x: Result<(), AdapterError>| x == Err::<(), AdapterError>(err)),
            _ => unexpected_step(s, t, a),
        },
        SubmitPhase::Returning => match e {
            SubmitEvent::Outcome(_) => carried(s, t, SubmitPhase::Checking { index: 0, by_return: true }) && check_call(s, a),
            _ => unexpected_step(s, t, a),
        },
        SubmitPhase::Restoring => match e {
            SubmitEvent::Outcome(_) => stopped(s, t, a, |x: Result<(), AdapterError>| end_result(s, x)),
            _ => unexpected_step(s, t, a),
        },
        SubmitPhase::Finished => unexpected_step(s, t, a),
    }
}


// ── What every run keeps ────────────────────────────────────────────────────

/// A submission ends as sent only once a send was confirmed, and it asks
/// whether generation started only on a conversation page.
pub open spec fn submit_wf(s: SubmitState) -> bool {
    &&& s.pending is Sent ==> s.confirmed
    &&& s.phase is Confirming ==> s.in_chat
}

/// A new submission satisfies the invariant.
pub proof fn law_submit_starts_wf(s: SubmitState)
    requires
        s.pending is Unconfirmed,
        !s.confirmed,
        s.phase is Preparing,
    ensures
        submit_wf(s),
{
}

/// Every step keeps the invariant. Success is reported only out of the
/// clipboard restore, and only after a confirmed send. A send counts as
/// confirmed only when a fresh page's URL turned into a conversation's, or
/// when, in a conversation, the input cleared and generation then started.
/// Any other report out of a step other than the restore is an error.
pub proof fn law_submit_step(s: SubmitState, e: SubmitEvent, t: SubmitState, a: SubmitAction)
    requires
        submit_wf(s),
        submit_rel(s, e, t, a),
    ensures
        submit_wf(t),
        a matches SubmitAction::Finish(Ok(())) ==> s.phase is Restoring && s.confirmed,
        !(s.phase is Restoring) ==> (a matches SubmitAction::Finish(x) ==> x is Err),
        t.confirmed && !s.confirmed ==> {
            ||| (s.phase is Checking && !s.in_chat && (e matches SubmitEvent::Url(u) && has_substr(u@, "/c/"@)))
            ||| (s.phase is Confirming && s.in_chat && (e matches SubmitEvent::Started(Ok(true))))
        },
        t.phase is Confirming && !(s.phase is Confirming) ==> s.phase is Checking && e matches SubmitEvent::InputCleared(true),
{
}

// ── Running it ──────────────────────────────────────────────────────────────

fn copy_attempts(v: &Vec<PasteAttempt>) -> (r: Vec<PasteAttempt>)
    ensures
        r@ == v@,
{
    let mut r: Vec<PasteAttempt> = Vec::new();
    let mut i: usize = 0;
    while i < v.len()
        invariant
            i <= v.len(),
            r@ == v@.take(i as int),
        decreases v.len() - i,
    {
        r.push(v[i]);
        i += 1;
        assert(r@ == v@.take(i as int));
    }
    assert(v@.take(v.len() as int) == v@);
    r
}

fn copy_points(v: &Vec<(i32, i32)>) -> (r: Vec<(i32, i32)>)
    ensures
        r@ == v@,
{
    let mut r: Vec<(i32, i32)> = Vec::new();
    let mut i: usize = 0;
    while i < v.len()
        invariant
            i <= v.len(),
            r@ == v@.take(i as int),
        decreases v.len() - i,
    {
        r.push(v[i]);
        i += 1;
        assert(r@ == v@.take(i as int));
    }
    assert(v@.take(v.len() as int) == v@);
    r
}

fn copy_end(e: &SubmitEnd) -> (r: SubmitEnd)
    ensures
        r == *e,
{
    match e {
        SubmitEnd::Sent => SubmitEnd::Sent,
        SubmitEnd::PasteFailed => SubmitEnd::PasteFailed,
        SubmitEnd::Unconfirmed => SubmitEnd::Unconfirmed,
        SubmitEnd::ClickFailed(m) => SubmitEnd::ClickFailed(m.clone()),
    }
}

fn carry(s: &SubmitState, phase: SubmitPhase) -> (t: SubmitState)
    ensures
        carried(*s, t, phase),
{
    SubmitState {
        phase,
        attempts: copy_attempts(&s.attempts),
        first: s.first,
        code_center: s.code_center,
        code_mode: s.code_mode,
        in_chat: s.in_chat,
        candidates: copy_points(&s.candidates),
        pending: copy_end(&s.pending),
        confirmed: s.confirmed,
    }
}

fn restore_then(s: &SubmitState, end: SubmitEnd, confirmed: bool) -> (r: (SubmitState, SubmitAction))
    ensures
        restoring(*s, r.0, r.1, |p: SubmitEnd| p == end, confirmed),
{
    let t = SubmitState {
        phase: SubmitPhase::Restoring,
        attempts: copy_attempts(&s.attempts),
        first: s.first,
        code_center: s.code_center,
        code_mode: s.code_mode,
        in_chat: s.in_chat,
        candidates: copy_points(&s.candidates),
        pending: end,
        confirmed,
    };
    (t, SubmitAction::RestoreClipboard)
}

fn stop_with(s: &SubmitState, x: Result<(), AdapterError>) -> (r: (SubmitState, SubmitAction))
    ensures
        stopped(*s, r.0, r.1, |y: Result<(), AdapterError>| y == x),
{
    (carry(s, SubmitPhase::Finished), SubmitAction::Finish(x))
}

fn stop_unexpected(s: &SubmitState) -> (r: (SubmitState, SubmitAction))
    ensures
        unexpected_step(*s, r.0, r.1),
{
    let mut m = String::new();
    m.append("submit: the event does not answer the pending step");
    stop_with(s, Err(AdapterError::Other(m)))
}

fn check_action(s: &SubmitState) -> (a: SubmitAction)
    ensures
        check_call(*s, a),
{
    if s.in_chat {
        SubmitAction::MeasureInput
    } else {
        SubmitAction::ReadUrl
    }
}

fn next_after(s: &SubmitState, k: usize, by_return: bool) -> (r: (SubmitState, SubmitAction))
    ensures
        try_next(*s, r.0, r.1, k as int, by_return),
{
    if by_return {
        restore_then(s, SubmitEnd::Unconfirmed, s.confirmed)
    } else if k < s.candidates.len() && k + 1 < s.candidates.len() {
        (carry(s, SubmitPhase::ClickingSend { index: k + 1 }), SubmitAction::ClickSend(s.candidates[k + 1]))
    } else {
        (carry(s, SubmitPhase::Returning), SubmitAction::PressReturn)
    }
}

/// The message of a submission whose pastes all failed.
fn paste_failed_text(first: (i32, i32), code: (i32, i32)) -> (m: String)
    ensures
        m@ == paste_failed_msg(first, code),
{
    let mut m = String::new();
    m.append("prompt paste failed at (");
    push_int(&mut m, first.0);
    m.append(",");
    push_int(&mut m, first.1);
    m.append(") and code-mode (");
    push_int(&mut m, code.0);
    m.append(",");
    push_int(&mut m, code.1);
    m.append(") with ±offsets. Check the run screenshots folder to see actual textarea position.");
    m
}

/// A submission that pastes at `attempts` in order (see
/// `paste_attempts`), naming `first` and `code_center` should every paste
/// fail. It begins by saving the clipboard and putting the prompt on it.
pub fn submit_begin(attempts: Vec<PasteAttempt>, first: (i32, i32), code_center: (i32, i32)) -> (r: (SubmitState, SubmitAction))
    ensures
        r.0.phase == SubmitPhase::Preparing,
        r.0.attempts@ == attempts@,
        r.0.first == first,
        r.0.code_center == code_center,
        !r.0.code_mode,
        !r.0.in_chat,
        r.0.candidates@.len() == 0,
        r.0.pending is Unconfirmed,
        !r.0.confirmed,
        r.1 is PrepareClipboard,
{
    (SubmitState {
        phase: SubmitPhase::Preparing,
        attempts,
        first,
        code_center,
        code_mode: false,
        in_chat: false,
        candidates: Vec::new(),
        pending: SubmitEnd::Unconfirmed,
        confirmed: false,
    }, SubmitAction::PrepareClipboard)
}

fn submit_paste(state: &SubmitState, event: SubmitEvent) -> (r: (SubmitState, SubmitAction))
    requires
        state.phase is Preparing || state.phase is Pasting || state.phase is Resetting,
    ensures
        submit_rel(*state, event, r.0, r.1),
{
    match state.phase {
        SubmitPhase::Preparing => match event {
            SubmitEvent::Outcome(Ok(())) => if state.attempts.len() > 0 {
                (carry(state, SubmitPhase::Pasting { index: 0 }), SubmitAction::ClickAndPaste(state.attempts[0]))
            } else {
                restore_then(state, SubmitEnd::PasteFailed, state.confirmed)
            },
            SubmitEvent::Outcome(Err(m)) => stop_with(state, Err(AdapterError::Clipboard(m))),
            _ => stop_unexpected(state),
        },
        SubmitPhase::Pasting { index } => match event {
            SubmitEvent::Pasted(Ok(true)) => if index < state.attempts.len() {
                let mut t = carry(state, SubmitPhase::Locating);
                t.code_mode = state.attempts[index].code_mode;
                (t, SubmitAction::LocateSend)
            } else {
                stop_unexpected(state)
            },
            SubmitEvent::Pasted(Ok(false)) => if index < state.attempts.len() && index + 1 < state.attempts.len() {
                (carry(state, SubmitPhase::Resetting { index: index + 1 }), SubmitAction::UndoAndReset)
            } else {
                restore_then(state, SubmitEnd::PasteFailed, state.confirmed)
            },
            SubmitEvent::Pasted(Err(m)) => restore_then(state, SubmitEnd::ClickFailed(m), state.confirmed),
            _ => stop_unexpected(state),
        },
        SubmitPhase::Resetting { index } => match event {
            SubmitEvent::Outcome(Ok(())) => if index < state.attempts.len() {
                (carry(state, SubmitPhase::Pasting { index }), SubmitAction::ClickAndPaste(state.attempts[index]))
            } else {
                stop_unexpected(state)
            },
            SubmitEvent::Outcome(Err(m)) => stop_with(state, Err(AdapterError::Clipboard(m))),
            _ => stop_unexpected(state),
        },
        _ => stop_unexpected(state),
    }
}

fn submit_send(state: &SubmitState, event: SubmitEvent) -> (r: (SubmitState, SubmitAction))
    requires
        !(state.phase is Preparing || state.phase is Pasting || state.phase is Resetting),
    ensures
        submit_rel(*state, event, r.0, r.1),
{
    match state.phase {
        SubmitPhase::Locating => match event {
            SubmitEvent::SendFound { in_chat, found_in_chat, found_fresh, calibrated } => {
                let cands = send_candidates(state.code_mode, in_chat, found_in_chat, found_fresh, calibrated);
                let (phase, action) = if cands.len() > 0 {
                    (SubmitPhase::ClickingSend { index: 0 }, SubmitAction::ClickSend(cands[0]))
                } else {
                    (SubmitPhase::Returning, SubmitAction::PressReturn)
                };
                let mut t = carry(state, phase);
                t.in_chat = in_chat;
                t.candidates = cands;
                (t, action)
            },
            SubmitEvent::SendSearchFailed(err) => stop_with(state, Err(err)),
            _ => stop_unexpected(state),
        },
        SubmitPhase::ClickingSend { index } => match event {
            SubmitEvent::Outcome(Ok(())) => (carry(state, SubmitPhase::MovingAway { index }), SubmitAction::MoveAway),
            SubmitEvent::Outcome(Err(m)) => restore_then(state, SubmitEnd::ClickFailed(m), state.confirmed),
            _ => stop_unexpected(state),
        },
        SubmitPhase::MovingAway { index } => match event {
            SubmitEvent::Outcome(Ok(())) => (carry(state, SubmitPhase::Checking { index, by_return: false }), check_action(state)),
            SubmitEvent::Outcome(Err(m)) => stop_with(state, Err(AdapterError::Input(m))),
            _ => stop_unexpected(state),
        },
        SubmitPhase::Checking { index, by_return } => match event {
            SubmitEvent::InputCleared(cleared) => if !state.in_chat {
                stop_unexpected(state)
            } else if cleared {
                (carry(state, SubmitPhase::Confirming { index, by_return }), SubmitAction::ConfirmStarted)
            } else {
                next_after(state, index, by_return)
            },
            SubmitEvent::Url(u) => if state.in_chat {
                stop_unexpected(state)
            } else if url_shows_conversation(u.as_str()) {
                restore_then(state, SubmitEnd::Sent, true)
            } else {
                next_after(state, index, by_return)
            },
            _ => stop_unexpected(state),
        },
        SubmitPhase::Confirming { index, by_return } => match event {
            SubmitEvent::Started(Ok(true)) => restore_then(state, SubmitEnd::Sent, true),
            SubmitEvent::Started(Ok(false)) => next_after(state, index, by_return),
            SubmitEvent::Started(Err(err)) => stop_with(state, Err(err)),
            _ => stop_unexpected(state),
        },
        SubmitPhase::Returning => match event {
            SubmitEvent::Outcome(_) => (carry(state, SubmitPhase::Checking { index: 0, by_return: true }), check_action(state)),
            _ => stop_unexpected(state),
        },
        SubmitPhase::Restoring => match event {
            SubmitEvent::Outcome(_) => {
                let x = match &state.pending {
                    SubmitEnd::Sent => Ok(()),
                    SubmitEnd::PasteFailed => Err(AdapterError::Input(paste_failed_text(state.first, state.code_center))),
                    SubmitEnd::Unconfirmed => {
                        let mut m = String::new();
                        m.append("prompt pasted but send could not be confirmed; refusing to continue with stale input");
                        Err(AdapterError::Input(m))
                    },
                    SubmitEnd::ClickFailed(c) => Err(AdapterError::Input(c.clone())),
                };
                (carry(state, SubmitPhase::Finished), SubmitAction::Finish(x))
            },
            _ => stop_unexpected(state),
        },
        _ => stop_unexpected(state),
    }
}

/// One step of a submission: what the caller observed after the last
/// action decides the next state and action.
pub fn submit_next(state: &SubmitState, event: SubmitEvent) -> (r: (SubmitState, SubmitAction))
    ensures
        submit_rel(*state, event, r.0, r.1),
{
    match state.phase {
        SubmitPhase::Preparing | SubmitPhase::Pasting { .. } | SubmitPhase::Resetting { .. } => submit_paste(state, event),
        _ => submit_send(state, event),
    }
}

} // verus!
