//! DeepSeek chat: screen regions and site hints.
use vstd::prelude::*;

pub mod regions;
pub mod templates;
pub mod chips;
pub mod upload;
pub mod controls;
pub mod submit;
pub mod session_setup;
pub mod setup_flow;
pub mod submit_flow;
pub mod layout;
pub mod plan;
pub mod detect;

verus! {

pub const DEEPSEEK_URL_SUBSTR: &'static str = "chat.deepseek.com";
pub const DEEPSEEK_TITLE_SUBSTR: &'static str = "DeepSeek";
pub const BROWSER_TITLE_SUBSTR: &'static str = "Chrome";
pub const DEEPSEEK_HOME_URL: &'static str = "https://chat.deepseek.com";

} // verus!
