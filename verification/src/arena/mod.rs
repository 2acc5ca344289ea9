//! Arena.ai: screen regions and site hints.
use vstd::prelude::*;

pub mod detect;
pub mod regions;
pub mod templates;
pub mod session_setup;
pub mod layout;
pub mod plan;
pub mod title;
pub mod submit;
pub mod probes;
pub mod copy;
pub mod choice;
pub mod setup_steps;
pub mod artifacts;
pub mod setup_flow;
pub mod model_pick;
pub mod submit_flow;

verus! {

/// Substring of Arena URLs (covers both `arena.ai` and `lmarena.ai`).
pub const ARENA_URL_SUBSTR: &'static str = "arena.ai";
pub const ARENA_TITLE_SUBSTR: &'static str = "Arena";
pub const BROWSER_TITLE_SUBSTR: &'static str = "Chrome";

/// Full URL used when opening a fresh Arena tab.
pub const ARENA_HOME_URL: &'static str = "https://arena.ai";

} // verus!
