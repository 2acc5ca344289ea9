//! Submitting a prompt to DeepSeek as a checked protocol: the clipboard is
//! saved and given the prompt, the input is cleared and pasted into, Send
//! is located and clicked, the send is checked (the URL moved to a chat,
//! the input emptied, or the stop square showed), the clipboard is
//! restored, and the outcome is reported.
use vstd::prelude::*;
use crate::adapter::AdapterError;
use crate::deepseek::submit::{moved_to_chat, send_button_missing, url_moved_to_chat};

verus! {

/// Where the submission stands: which observation it waits for.
#[derive(Clone, Copy, Debug, PartialEq, Eq, Structural)]
pub enum DeepSeekSubmitPhase {
    /// The clipboard was to be saved and given the prompt.
    Preparing,
    /// The input was to be focused, emptied and pasted into.
    Pasting,
    /// Where Send shows is due.
    Locating,
    /// Send was to be clicked and the pointer moved off the controls.
    Clicking,
    /// The readings after the send are due.
    Checking,
    /// The clipboard was to be restored; the outcome follows.
    Restoring,
    /// The outcome was reported.
    Finished,
}

/// The submission's state.
pub struct DeepSeekSubmitState {
    pub phase: DeepSeekSubmitPhase,
    /// The page was a conversation before the send.
    pub in_chat: bool,
    /// The URL before the send.
    pub pre_url: String,
    /// How the submission ends once the clipboard is restored: sent
    /// (`None`) or not confirmed, with this message.
    pub pending: Option<String>,
}

/// What the caller observed after performing the requested action.
pub enum DeepSeekSubmitEvent {
    /// How an action that can fail went.
    Outcome(Result<(), String>),
    /// Where Send was found, if anywhere.
    SendAt(Option<(i32, i32)>),
    /// The readings after the send: the URL, whether the input emptied,
    /// whether the stop square shows, and the input's variance before and
    /// after as the report prints it.
    Checked { post_url: String, input_cleared: bool, stop_visible: bool, input_var: String },
}

/// What the caller should do next.
pub enum DeepSeekSubmitAction {
    /// Save the clipboard's text and put the prompt on it.
    PrepareClipboard,
    /// Click the input, select all, delete, paste.
    PasteIntoInput,
    /// Report where Send shows.
    LocateSend,
    /// Note the input's look, click Send there and move the pointer off the controls.
    ClickSend((i32, i32)),
    /// Report the readings after the send.
    CheckSend,
    /// Put the saved text back on the clipboard.
    RestoreClipboard,
    /// The submission's outcome.
    Finish(Result<(), AdapterError>),
}

pub open spec fn bool_text(b: bool) -> Seq<char> {
    if b {
        "true"@
    } else {
        "false"@
    }
}

/// The message of a send that could not be confirmed.
pub open spec fn ds_unconfirmed_msg(url_changed: bool, input_var: Seq<char>, stop_visible: bool) -> Seq<char> {
    "DeepSeek send could not be confirmed: url_changed="@ + bool_text(url_changed) + " input_var "@ + input_var
        + " stop_visible="@ + bool_text(stop_visible)
}

pub open spec fn ds_submit_unexpected_msg() -> Seq<char> {
    "submit: the event does not answer the pending step"@
}

/// `t` is `s` moved on to `phase`, nothing else changed.
pub open spec fn ds_carried(s: DeepSeekSubmitState, t: DeepSeekSubmitState, phase: DeepSeekSubmitPhase) -> bool {
    t.phase == phase && t.in_chat == s.in_chat && t.pre_url@ == s.pre_url@ && t.pending == s.pending
}

/// The submission ends at once with an outcome that `r` allows.
pub open spec fn ds_stopped(s: DeepSeekSubmitState, t: DeepSeekSubmitState, a: DeepSeekSubmitAction, r: spec_fn(Result<(), AdapterError>) -> bool) -> bool {
    ds_carried(s, t, DeepSeekSubmitPhase::Finished) && (a matches DeepSeekSubmitAction::Finish(x) && r(x))
}

pub open spec fn ds_unexpected_step(s: DeepSeekSubmitState, t: DeepSeekSubmitState, a: DeepSeekSubmitAction) -> bool {
    ds_stopped(s, t, a, |x: Result<(), AdapterError>| x matches Err(AdapterError::Other(m)) && m@ == ds_submit_unexpected_msg())
}

/// One step of a submission: from the pending step and what was observed,
/// the next state `t` and action `a`.
pub open spec fn ds_submit_rel(s: DeepSeekSubmitState, e: DeepSeekSubmitEvent, t: DeepSeekSubmitState, a: DeepSeekSubmitAction) -> bool {
    match s.phase {
        DeepSeekSubmitPhase::Preparing => match e {
            DeepSeekSubmitEvent::Outcome(Ok(())) => ds_carried(s, t, DeepSeekSubmitPhase::Pasting) && a is PasteIntoInput,
            DeepSeekSubmitEvent::Outcome(Err(m)) => ds_stopped(s, t, a, |x: Result<(), AdapterError>| x matches Err(AdapterError::Clipboard(c)) && c@ == m@),
            _ => ds_unexpected_step(s, t, a),
        },
        DeepSeekSubmitPhase::Pasting => match e {
            DeepSeekSubmitEvent::Outcome(Ok(())) => ds_carried(s, t, DeepSeekSubmitPhase::Locating) && a is LocateSend,
            DeepSeekSubmitEvent::Outcome(Err(m)) => ds_stopped(s, t, a, |x: Result<(), AdapterError>| x matches Err(AdapterError::Input(c)) && c@ == m@),
            _ => ds_unexpected_step(s, t, a),
        },
        DeepSeekSubmitPhase::Locating => match e {
            DeepSeekSubmitEvent::SendAt(Some(p)) => ds_carried(s, t, DeepSeekSubmitPhase::Clicking) && a == DeepSeekSubmitAction::ClickSend(p),
            DeepSeekSubmitEvent::SendAt(None) => ds_stopped(s, t, a, |x: Result<(), AdapterError>| x matches Err(AdapterError::NotFound { what })
                && what@ == "DeepSeek send button by matrix in "@ + (if s.in_chat { "follow-up"@ } else { "first"@ }) + " prompt regions"@),
            _ => ds_unexpected_step(s, t, a),
        },
        DeepSeekSubmitPhase::Clicking => match e {
            DeepSeekSubmitEvent::Outcome(Ok(())) => ds_carried(s, t, DeepSeekSubmitPhase::Checking) && a is CheckSend,
            DeepSeekSubmitEvent::Outcome(Err(m)) => ds_stopped(s, t, a, |x: Result<(), AdapterError>| x matches Err(AdapterError::Input(c)) && c@ == m@),
            _ => ds_unexpected_step(s, t, a),
        },
        DeepSeekSubmitPhase::Checking => match e {
            DeepSeekSubmitEvent::Checked { post_url, input_cleared, stop_visible, input_var } => {
                let url_changed = moved_to_chat(s.pre_url@, post_url@);
                &&& t.phase == DeepSeekSubmitPhase::Restoring
                &&& t.in_chat == s.in_chat
                &&& t.pre_url@ == s.pre_url@
                &&& a is RestoreClipboard
                &&& if url_changed || input_cleared || stop_visible {
                    t.pending is None
                } else {
                    t.pending matches Some(m) && m@ == ds_unconfirmed_msg(url_changed, input_var@, stop_visible)
                }
            },
            _ => ds_unexpected_step(s, t, a),
        },
        DeepSeekSubmitPhase::Restoring => match e {
            DeepSeekSubmitEvent::Outcome(_) => ds_stopped(s, t, a, |x: Result<(), AdapterError>| match s.pending {
                None => x is Ok,
                Some(m) => x matches Err(AdapterError::Input(c)) && c@ == m@,
            }),
            _ => ds_unexpected_step(s, t, a),
        },
        DeepSeekSubmitPhase::Finished => ds_unexpected_step(s, t, a),
    }
}

/// Success is reported only out of the clipboard restore, after a check
/// that confirmed the send: the URL moved to a chat, the input emptied, or
/// the stop square showed. Any report out of another step is an error.
pub proof fn law_deepseek_submit_step(s: DeepSeekSubmitState, e: DeepSeekSubmitEvent, t: DeepSeekSubmitState, a: DeepSeekSubmitAction)
    requires
        ds_submit_rel(s, e, t, a),
    ensures
        a matches DeepSeekSubmitAction::Finish(Ok(())) ==> s.phase is Restoring && s.pending is None,
        !(s.phase is Restoring) ==> (a matches DeepSeekSubmitAction::Finish(x) ==> x is Err),
        t.phase is Restoring && !(s.phase is Restoring) && t.pending is None ==> (e matches DeepSeekSubmitEvent::Checked {
            post_url,
            input_cleared,
            stop_visible,
            ..
        } && (moved_to_chat(s.pre_url@, post_url@) || input_cleared || stop_visible)),
{
}

// ── Running it ──────────────────────────────────────────────────────────────

fn ds_copy(s: &DeepSeekSubmitState, phase: DeepSeekSubmitPhase) -> (t: DeepSeekSubmitState)
    ensures
        ds_carried(*s, t, phase),
{
    DeepSeekSubmitState { phase, in_chat: s.in_chat, pre_url: s.pre_url.clone(), pending: s.pending.clone() }
}

fn ds_finish(s: &DeepSeekSubmitState, x: Result<(), AdapterError>) -> (r: (DeepSeekSubmitState, DeepSeekSubmitAction))
    ensures
        ds_stopped(*s, r.0, r.1, |y: Result<(), AdapterError>| y == x),
{
    (ds_copy(s, DeepSeekSubmitPhase::Finished), DeepSeekSubmitAction::Finish(x))
}

fn ds_finish_unexpected(s: &DeepSeekSubmitState) -> (r: (DeepSeekSubmitState, DeepSeekSubmitAction))
    ensures
        ds_unexpected_step(*s, r.0, r.1),
{
    let mut m = String::new();
    m.append("submit: the event does not answer the pending step");
    ds_finish(s, Err(AdapterError::Other(m)))
}

fn push_bool(m: &mut String, b: bool)
    ensures
        final(m)@ == old(m)@ + bool_text(b),
{
    if b {
        m.append("true");
    } else {
        m.append("false");
    }
}

/// A DeepSeek submission on a page that is (or is not) a conversation and
/// shows `pre_url`. It begins by saving the clipboard and putting the
/// prompt on it.
pub fn deepseek_submit_begin(in_chat: bool, pre_url: String) -> (r: (DeepSeekSubmitState, DeepSeekSubmitAction))
    ensures
        r.0.phase == DeepSeekSubmitPhase::Preparing,
        r.0.in_chat == in_chat,
        r.0.pre_url@ == pre_url@,
        r.1 is PrepareClipboard,
{
    (DeepSeekSubmitState { phase: DeepSeekSubmitPhase::Preparing, in_chat, pre_url, pending: None }, DeepSeekSubmitAction::PrepareClipboard)
}

/// One step of a DeepSeek submission.
pub fn deepseek_submit_next(state: &DeepSeekSubmitState, event: DeepSeekSubmitEvent) -> (r: (DeepSeekSubmitState, DeepSeekSubmitAction))
    ensures
        ds_submit_rel(*state, event, r.0, r.1),
{
    match state.phase {
        DeepSeekSubmitPhase::Preparing => match event {
            DeepSeekSubmitEvent::Outcome(Ok(())) => (ds_copy(state, DeepSeekSubmitPhase::Pasting), DeepSeekSubmitAction::PasteIntoInput),
            DeepSeekSubmitEvent::Outcome(Err(m)) => ds_finish(state, Err(AdapterError::Clipboard(m))),
            _ => ds_finish_unexpected(state),
        },
        DeepSeekSubmitPhase::Pasting => match event {
            DeepSeekSubmitEvent::Outcome(Ok(())) => (ds_copy(state, DeepSeekSubmitPhase::Locating), DeepSeekSubmitAction::LocateSend),
            DeepSeekSubmitEvent::Outcome(Err(m)) => ds_finish(state, Err(AdapterError::Input(m))),
            _ => ds_finish_unexpected(state),
        },
        DeepSeekSubmitPhase::Locating => match event {
            DeepSeekSubmitEvent::SendAt(Some(p)) => (ds_copy(state, DeepSeekSubmitPhase::Clicking), DeepSeekSubmitAction::ClickSend(p)),
            DeepSeekSubmitEvent::SendAt(None) => ds_finish(state, Err(send_button_missing(state.in_chat))),
            _ => ds_finish_unexpected(state),
        },
        DeepSeekSubmitPhase::Clicking => match event {
            DeepSeekSubmitEvent::Outcome(Ok(())) => (ds_copy(state, DeepSeekSubmitPhase::Checking), DeepSeekSubmitAction::CheckSend),
            DeepSeekSubmitEvent::Outcome(Err(m)) => ds_finish(state, Err(AdapterError::Input(m))),
            _ => ds_finish_unexpected(state),
        },
        DeepSeekSubmitPhase::Checking => match event {
            DeepSeekSubmitEvent::Checked { post_url, input_cleared, stop_visible, input_var } => {
                let url_changed = url_moved_to_chat(state.pre_url.as_str(), post_url.as_str());
                let pending = if url_changed || input_cleared || stop_visible {
                    None
                } else {
                    let mut m = String::new();
                    m.append("DeepSeek send could not be confirmed: url_changed=");
                    push_bool(&mut m, url_changed);
                    m.append(" input_var ");
                    m.append(input_var.as_str());
                    m.append(" stop_visible=");
                    push_bool(&mut m, stop_visible);
                    Some(m)
                };
                (DeepSeekSubmitState { phase: DeepSeekSubmitPhase::Restoring, in_chat: state.in_chat, pre_url: state.pre_url.clone(), pending },
                    DeepSeekSubmitAction::RestoreClipboard)
            },
            _ => ds_finish_unexpected(state),
        },
        DeepSeekSubmitPhase::Restoring => match event {
            DeepSeekSubmitEvent::Outcome(_) => {
                let x = match &state.pending {
                    None => Ok(()),
                    Some(m) => Err(AdapterError::Input(m.clone())),
                };
                ds_finish(state, x)
            },
            _ => ds_finish_unexpected(state),
        },
        DeepSeekSubmitPhase::Finished => ds_finish_unexpected(state),
    }
}

} // verus!
