//! Decision logic of the web-UI automation layer.
use vstd::prelude::*;

pub mod adapter;
pub mod text;
pub mod parse;
pub mod matrix;
pub mod blobs;
pub mod stats;
pub mod recovery;
pub mod fsm;
pub mod detection;
pub mod watchdog;
pub mod null;
pub mod session;
pub mod arena;
pub mod deepseek;
pub mod browser_state;
pub mod runtime;
pub mod state_log;

verus! {
}
