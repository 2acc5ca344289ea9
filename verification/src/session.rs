//! Session settings that the web-UI layer reads.
use vstd::prelude::*;

verus! {

/// The kind of work a session asks the AI for.
#[derive(Clone, Copy, Debug, PartialEq, Eq, Structural)]
pub enum PromptMode {
    Coding,
    Research,
}

/// DeepSeek's two answer modes, chosen in its model selector.
#[derive(Clone, Copy, Debug, PartialEq, Eq, Structural)]
pub enum DeepSeekModelMode {
    Instant,
    Expert,
}

} // verus!
