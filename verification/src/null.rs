//! `NullAdapter` — answers every adapter call without touching a real screen.
//!
//! The adapter walks a scripted state sequence so the FSM can run end to end
//! without any real UI. Each state in the script is held for
//! `polls_per_state` consecutive `detect_state` calls so the FSM's stability
//! filter has something to lock onto. When the script is exhausted, the final
//! state repeats forever.
use vstd::prelude::*;
use crate::adapter::{AdapterError, WebUiState};

verus! {

#[derive(Debug)]
pub struct StateScript {
    pub states: Vec<WebUiState>,
}

impl Default for StateScript {
    fn default() -> (s: Self)
        ensures
            s.states@ == seq![WebUiState::Ready, WebUiState::Generating, WebUiState::Complete],
    {
        StateScript { states: vec![WebUiState::Ready, WebUiState::Generating, WebUiState::Complete] }
    }
}

/// The state the script shows on the poll numbered `calls` (from 0).
pub open spec fn script_state(states: Seq<WebUiState>, calls: int, polls_per_state: int) -> WebUiState {
    if states.len() == 0 {
        WebUiState::Unknown
    } else {
        let bucket = calls / polls_per_state;
        states[if bucket < states.len() - 1 { bucket } else { states.len() - 1 }]
    }
}

/// The text a copy returns after `last` was the last submitted prompt.
pub open spec fn null_response(last: Option<Seq<char>>) -> Seq<char> {
    "[null adapter response]\nLast prompt was:\n"@ + match last {
        Some(t) => t,
        None => "<no prompt submitted>"@,
    }
}

pub struct NullAdapter {
    script: StateScript,
    /// `detect_state` calls since the last script reset.
    calls: usize,
    last_text: Option<String>,
    polls_per_state: usize,
    model: Option<String>,
}

impl NullAdapter {
    pub closed spec fn states_spec(&self) -> Seq<WebUiState> {
        self.script.states@
    }

    pub closed spec fn calls_spec(&self) -> usize {
        self.calls
    }

    pub closed spec fn polls_spec(&self) -> usize {
        self.polls_per_state
    }

    pub closed spec fn last_text_spec(&self) -> Option<Seq<char>> {
        match self.last_text {
            Some(t) => Some(t@),
            None => None,
        }
    }

    pub closed spec fn wf(&self) -> bool {
        &&& self.polls_per_state >= 1
        &&& self.model matches Some(m) && m@ == "null-model"@
    }

    /// A well-formed adapter holds each state for at least one poll.
    pub proof fn lemma_polls_positive(&self)
        requires
            self.wf(),
        ensures
            self.polls_spec() >= 1,
    {
    }

    /// Once the counter is back at zero (after construction or
    /// `replace_script`), the next poll shows the script's first state.
    pub proof fn law_replay_from_start(&self)
        requires
            self.wf(),
            self.calls_spec() == 0,
            self.states_spec().len() > 0,
        ensures
            script_state(self.states_spec(), self.calls_spec() as int, self.polls_spec() as int) == self.states_spec()[0],
    {
        vstd::arithmetic::div_mod::lemma_div_basics(self.polls_spec() as int);
    }

    /// The default script (Ready → Generating → Complete), five polls each.
    pub fn new() -> (a: Self)
        ensures
            a.wf(),
            a.states_spec() == seq![WebUiState::Ready, WebUiState::Generating, WebUiState::Complete],
            a.polls_spec() == 5,
            a.calls_spec() == 0,
            a.last_text_spec() is None,
    {
        Self::with_script(StateScript::default())
    }

    pub fn with_script(script: StateScript) -> (a: Self)
        ensures
            a.wf(),
            a.states_spec() == script.states@,
            a.polls_spec() == 5,
            a.calls_spec() == 0,
            a.last_text_spec() is None,
    {
        Self::with_script_and_polls(script, 5)
    }

    /// `polls_per_state` of 0 is treated as 1.
    pub fn with_script_and_polls(script: StateScript, polls_per_state: usize) -> (a: Self)
        ensures
            a.wf(),
            a.states_spec() == script.states@,
            a.polls_spec() == if polls_per_state >= 1 { polls_per_state } else { 1 },
            a.calls_spec() == 0,
            a.last_text_spec() is None,
    {
        NullAdapter {
            script,
            calls: 0,
            last_text: None,
            polls_per_state: if polls_per_state >= 1 { polls_per_state } else { 1 },
            model: Some(String::from_str("null-model")),
        }
    }

    /// Replace the script mid-run and reset the call counter.
    pub fn replace_script(&mut self, script: StateScript)
        requires
            old(self).wf(),
        ensures
            final(self).wf(),
            final(self).states_spec() == script.states@,
            final(self).calls_spec() == 0,
            final(self).polls_spec() == old(self).polls_spec(),
            final(self).last_text_spec() == old(self).last_text_spec(),
    {
        self.script = script;
        self.calls = 0;
    }

    pub fn name(&self) -> (r: &'static str)
        ensures
            r@ == "null"@,
    {
        "null"
    }

    /// The scripted state for this poll; the poll is counted. An empty
    /// script shows `Unknown` and counts nothing.
    pub fn detect_state(&mut self) -> (r: Result<WebUiState, AdapterError>)
        requires
            old(self).wf(),
            old(self).calls_spec() < usize::MAX,
        ensures
            final(self).wf(),
            r == Ok::<WebUiState, AdapterError>(
                script_state(old(self).states_spec(), old(self).calls_spec() as int, old(self).polls_spec() as int),
            ),
            final(self).calls_spec() == if old(self).states_spec().len() == 0 {
                old(self).calls_spec() as int
            } else {
                old(self).calls_spec() + 1
            },
            final(self).states_spec() == old(self).states_spec(),
            final(self).polls_spec() == old(self).polls_spec(),
            final(self).last_text_spec() == old(self).last_text_spec(),
    {
        let n = self.script.states.len();
        if n == 0 {
            return Ok(WebUiState::Unknown);
        }
        let bucket = self.calls / self.polls_per_state;
        let idx = if bucket < n - 1 { bucket } else { n - 1 };
        let s = self.script.states[idx];
        self.calls = self.calls + 1;
        Ok(s)
    }

    /// The model the adapter reports.
    pub fn detect_model(&self) -> (r: Result<Option<String>, AdapterError>)
        requires
            self.wf(),
        ensures
            r matches Ok(Some(m)) && m@ == "null-model"@,
    {
        match &self.model {
            Some(m) => Ok(Some(m.clone())),
            None => Ok(None),
        }
    }

    /// Remember the prompt and restart the script.
    pub fn submit_prompt(&mut self, text: &str) -> (r: Result<(), AdapterError>)
        requires
            old(self).wf(),
        ensures
            final(self).wf(),
            r is Ok,
            final(self).last_text_spec() == Some(text@),
            final(self).calls_spec() == 0,
            final(self).states_spec() == old(self).states_spec(),
            final(self).polls_spec() == old(self).polls_spec(),
    {
        self.last_text = Some(String::from_str(text));
        self.calls = 0;
        Ok(())
    }

    /// A canned response quoting the last submitted prompt.
    pub fn copy_response(&self) -> (r: Result<String, AdapterError>)
        ensures
            r matches Ok(t) && t@ == null_response(self.last_text_spec()),
    {
        let mut out = String::from_str("[null adapter response]\nLast prompt was:\n");
        match &self.last_text {
            Some(t) => out.append(t.as_str()),
            None => out.append("<no prompt submitted>"),
        }
        Ok(out)
    }

    /// Restart the script.
    pub fn start_new_chat(&mut self) -> (r: Result<(), AdapterError>)
        requires
            old(self).wf(),
        ensures
            final(self).wf(),
            r is Ok,
            final(self).calls_spec() == 0,
            final(self).states_spec() == old(self).states_spec(),
            final(self).polls_spec() == old(self).polls_spec(),
            final(self).last_text_spec() == old(self).last_text_spec(),
    {
        self.calls = 0;
        Ok(())
    }

    /// There is never a modal to dismiss.
    pub fn dismiss_modal(&self) -> (r: Result<bool, AdapterError>)
        ensures
            r matches Ok(b) && !b,
    {
        Ok(false)
    }
}

impl Default for NullAdapter {
    fn default() -> (a: Self)
        ensures
            a.wf(),
            a.states_spec() == seq![WebUiState::Ready, WebUiState::Generating, WebUiState::Complete],
            a.polls_spec() == 5,
            a.calls_spec() == 0,
    {
        Self::new()
    }
}

/// Each state of the script is held for `polls_per_state` consecutive polls,
/// in script order; once the script is exhausted its last state repeats.
pub proof fn law_script_walk(states: Seq<WebUiState>, polls: int, i: int, k: int)
    requires
        polls >= 1,
        0 <= i < states.len(),
        i * polls <= k,
        k < (i + 1) * polls || i == states.len() - 1,
    ensures
        script_state(states, k, polls) == states[i],
{
    assert((i + 1) * polls == i * polls + polls) by (nonlinear_arith);
    assert(i * polls == polls * i) by (nonlinear_arith);
    vstd::arithmetic::div_mod::lemma_div_multiples_vanish(i, polls);
    vstd::arithmetic::div_mod::lemma_div_is_ordered(i * polls, k, polls);
    if k < (i + 1) * polls {
        vstd::arithmetic::div_mod::lemma_fundamental_div_mod_converse(k, polls, i, k - i * polls);
    }
}

} // verus!
