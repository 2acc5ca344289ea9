//! Template asset sets for DeepSeek.
//!
//! Each accessor lists the asset files of one template; a match against
//! any variant counts.
use vstd::prelude::*;

verus! {
pub const ASSET_ROOT: &'static str = "assets/macos/deepseek/templates";
pub const SEND_ARROW_DARK: &'static str = "assets/macos/deepseek/templates/send_arrow_dark.png";
pub const STOP_SQUARE_DARK: &'static str = "assets/macos/deepseek/templates/stop_square_dark.png";
pub const NEW_CHAT_DARK: &'static str = "assets/macos/deepseek/templates/new_chat_dark.png";
pub const RESPONSE_ACTIONS_DARK: &'static str = "assets/macos/deepseek/templates/response_actions_dark.png";
pub const COPY_BUTTON_DARK: &'static str = "assets/macos/deepseek/templates/copy_button_dark.png";
pub const MODEL_INSTANT_SELECTED_DARK: &'static str = "assets/macos/deepseek/templates/model_instant_selected_dark.png";
pub const MODEL_EXPERT_SELECTED_DARK: &'static str = "assets/macos/deepseek/templates/model_expert_selected_dark.png";
pub const DEEP_THINKING_ON_DARK: &'static str = "assets/macos/deepseek/templates/deep_thinking_on_dark.png";
pub const DEEP_THINKING_OFF_DARK: &'static str = "assets/macos/deepseek/templates/deep_thinking_off_dark.png";
pub const SMART_SEARCH_ON_DARK: &'static str = "assets/macos/deepseek/templates/smart_search_on_dark.png";
pub const SMART_SEARCH_OFF_DARK: &'static str = "assets/macos/deepseek/templates/smart_search_off_dark.png";
pub const ATTACH_BUTTON_DARK_INCHAT: &'static str = "assets/macos/deepseek/templates/attach_button_dark_inchat.png";
pub const ATTACH_BUTTON_DARK_FRESH: &'static str = "assets/macos/deepseek/templates/attach_button_dark_fresh.png";
pub const ATTACH_CHIP_ICON_DARK: &'static str = "assets/macos/deepseek/templates/attach_chip_icon_dark.png";
pub const DOC_PANEL_CLOSE_DARK: &'static str = "assets/macos/deepseek/templates/doc_panel_close_dark.png";
pub const PANEL_TOGGLE_DARK: &'static str = "assets/macos/deepseek/templates/panel_toggle_dark.png";
pub const CHIP_CLOSE_X_DARK: &'static str = "assets/macos/deepseek/templates/chip_close_x_dark.png";
pub const SERVER_BUSY_DARK: &'static str = "assets/macos/deepseek/templates/server_busy_dark.png";
pub const SUBMIT_NEW_CHAT_DARK: &'static str = "assets/macos/deepseek/templates/submit_new_chat_dark.png";

pub fn send_arrow() -> (paths: Vec<&'static str>)
    ensures
        paths@ == seq![SEND_ARROW_DARK],
{
    vec![SEND_ARROW_DARK]
}

pub fn stop_square() -> (paths: Vec<&'static str>)
    ensures
        paths@ == seq![STOP_SQUARE_DARK],
{
    vec![STOP_SQUARE_DARK]
}

pub fn new_chat() -> (paths: Vec<&'static str>)
    ensures
        paths@ == seq![NEW_CHAT_DARK],
{
    vec![NEW_CHAT_DARK]
}

pub fn response_actions() -> (paths: Vec<&'static str>)
    ensures
        paths@ == seq![RESPONSE_ACTIONS_DARK],
{
    vec![RESPONSE_ACTIONS_DARK]
}

pub fn copy_button() -> (paths: Vec<&'static str>)
    ensures
        paths@ == seq![COPY_BUTTON_DARK],
{
    vec![COPY_BUTTON_DARK]
}

pub fn model_instant_selected() -> (paths: Vec<&'static str>)
    ensures
        paths@ == seq![MODEL_INSTANT_SELECTED_DARK],
{
    vec![MODEL_INSTANT_SELECTED_DARK]
}

pub fn model_expert_selected() -> (paths: Vec<&'static str>)
    ensures
        paths@ == seq![MODEL_EXPERT_SELECTED_DARK],
{
    vec![MODEL_EXPERT_SELECTED_DARK]
}

pub fn deep_thinking_on() -> (paths: Vec<&'static str>)
    ensures
        paths@ == seq![DEEP_THINKING_ON_DARK],
{
    vec![DEEP_THINKING_ON_DARK]
}

pub fn deep_thinking_off() -> (paths: Vec<&'static str>)
    ensures
        paths@ == seq![DEEP_THINKING_OFF_DARK],
{
    vec![DEEP_THINKING_OFF_DARK]
}

pub fn smart_search_on() -> (paths: Vec<&'static str>)
    ensures
        paths@ == seq![SMART_SEARCH_ON_DARK],
{
    vec![SMART_SEARCH_ON_DARK]
}

pub fn smart_search_off() -> (paths: Vec<&'static str>)
    ensures
        paths@ == seq![SMART_SEARCH_OFF_DARK],
{
    vec![SMART_SEARCH_OFF_DARK]
}

pub fn attach_button() -> (paths: Vec<&'static str>)
    ensures
        paths@ == seq![ATTACH_BUTTON_DARK_INCHAT, ATTACH_BUTTON_DARK_FRESH],
{
    vec![ATTACH_BUTTON_DARK_INCHAT, ATTACH_BUTTON_DARK_FRESH]
}

/// Blue document icon on the left of the attached-file chip card.
/// Used to locate the chip anywhere in the input box via full-height scan.
pub fn attach_chip_icon() -> (paths: Vec<&'static str>)
    ensures
        paths@ == seq![ATTACH_CHIP_ICON_DARK],
{
    vec![ATTACH_CHIP_ICON_DARK]
}

/// × close button for the document-preview side panel that opens when a chip
/// is clicked. Detection-only — when found, the panel is dismissed.
pub fn doc_panel_close() -> (paths: Vec<&'static str>)
    ensures
        paths@ == seq![DOC_PANEL_CLOSE_DARK],
{
    vec![DOC_PANEL_CLOSE_DARK]
}

/// Square panel-toggle button — left icon of the compact pill at top-left
/// of the viewport when the chat-history sidebar is collapsed.
pub fn panel_toggle() -> (paths: Vec<&'static str>)
    ensures
        paths@ == seq![PANEL_TOGGLE_DARK],
{
    vec![PANEL_TOGGLE_DARK]
}

/// White × on dark circle — the chip close button revealed by mouse hover.
pub fn chip_close_x() -> (paths: Vec<&'static str>)
    ensures
        paths@ == seq![CHIP_CLOSE_X_DARK],
{
    vec![CHIP_CLOSE_X_DARK]
}

/// Circular reload arrow shown when DeepSeek's backend is overloaded.
pub fn server_busy() -> (paths: Vec<&'static str>)
    ensures
        paths@ == seq![SERVER_BUSY_DARK],
{
    vec![SERVER_BUSY_DARK]
}

/// Wide blue "New chat" button shown in place of the send-arrow when
/// DeepSeek wants to spin up a fresh chat for the just-attached file.
pub fn submit_new_chat() -> (paths: Vec<&'static str>)
    ensures
        paths@ == seq![SUBMIT_NEW_CHAT_DARK],
{
    vec![SUBMIT_NEW_CHAT_DARK]
}

} // verus!
