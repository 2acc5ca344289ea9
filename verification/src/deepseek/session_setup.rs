//! What the one-shot DeepSeek session setup did.
use vstd::prelude::*;

verus! {

/// Which setup steps took effect.
#[derive(Clone, Copy, Debug)]
pub struct SetupReport {
    pub browser_focused: bool,
    pub navigated_to_deepseek: bool,
    pub reused_existing_tab: bool,
    pub forced_fullscreen: bool,
    pub clicked_new_chat: bool,
    pub model_selected: bool,
    pub deep_thinking_set: bool,
    pub smart_search_set: bool,
}

impl Default for SetupReport {
    /// Nothing done yet.
    fn default() -> (r: Self)
        ensures
            !r.browser_focused && !r.navigated_to_deepseek && !r.reused_existing_tab && !r.forced_fullscreen
                && !r.clicked_new_chat && !r.model_selected && !r.deep_thinking_set && !r.smart_search_set,
    {
        SetupReport {
            browser_focused: false,
            navigated_to_deepseek: false,
            reused_existing_tab: false,
            forced_fullscreen: false,
            clicked_new_chat: false,
            model_selected: false,
            deep_thinking_set: false,
            smart_search_set: false,
        }
    }
}

} // verus!
