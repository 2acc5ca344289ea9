//! Rows of the append-only log of FSM state transitions.
//!
//! Each line of the log is one `StateTransition`; the format is flat so
//! `jq`-style queries work directly.
use vstd::prelude::*;

verus! {

/// One row of the state log.
#[derive(Debug, Clone)]
pub struct StateTransition {
    /// RFC 3339 UTC timestamp.
    pub timestamp: String,
    /// Adapter name (`"arena"`, `"null"`, …).
    pub adapter: String,
    /// 0-based task index.
    pub task_index: usize,
    /// 0-based iteration index.
    pub iteration: usize,
    /// Previous FSM state name.
    pub from: String,
    /// New FSM state name.
    pub to: String,
    /// Optional human-readable detail (reason / error message).
    pub note: Option<String>,
    /// Optional path to a debug screenshot taken at this transition.
    pub screenshot: Option<String>,
}

/// The log file a run appends its transitions to.
pub struct StateLog {
    path: String,
}

impl StateLog {
    pub closed spec fn path_spec(&self) -> Seq<char> {
        self.path@
    }

    /// A log that appends to `path`.
    pub fn at(path: String) -> (log: Self)
        ensures
            log.path_spec() == path@,
    {
        StateLog { path }
    }

    pub fn path(&self) -> (p: &str)
        ensures
            p@ == self.path_spec(),
    {
        self.path.as_str()
    }
}

/// A transition stamped with the given time.
pub fn transition_at(
    timestamp: String,
    adapter: &str,
    task_index: usize,
    iteration: usize,
    from: &str,
    to: &str,
    note: Option<String>,
    screenshot: Option<String>,
) -> (t: StateTransition)
    ensures
        t.timestamp@ == timestamp@,
        t.adapter@ == adapter@,
        t.task_index == task_index,
        t.iteration == iteration,
        t.from@ == from@,
        t.to@ == to@,
        t.note == note,
        t.screenshot == screenshot,
{
    StateTransition {
        timestamp,
        adapter: String::from_str(adapter),
        task_index,
        iteration,
        from: String::from_str(from),
        to: String::from_str(to),
        note,
        screenshot,
    }
}


} // verus!
