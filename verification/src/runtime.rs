//! Crash-resilient resume state.
//!
//! After every FSM transition the runner records its current
//! `(task_index, iteration, state_name)` at `RUNTIME_PATH`; on startup an
//! existing record offers a resume.
use vstd::prelude::*;

verus! {

/// Where the resume record is kept, relative to the working directory.
pub const RUNTIME_PATH: &'static str = "session/runtime.json";

/// Where the runner stood after its most recent transition.
#[derive(Debug, Clone)]
pub struct RuntimeState {
    pub task_index: usize,
    pub iteration: usize,
    /// FSM state name, e.g. `"Generating"`, `"Copying"`; free-form.
    pub last_state: String,
    /// RFC 3339 UTC timestamp of the most recent transition.
    pub updated_at: String,
    /// Adapter name, to check that a resume is for the same site.
    pub adapter: String,
}

} // verus!
