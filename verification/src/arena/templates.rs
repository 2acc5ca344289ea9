//! Template asset sets for Arena.ai.
//!
//! Multi-variant templates live under `assets/macos/arena.ai/templates/`,
//! named `{element}_{theme}_{zoom}.png`. Each accessor lists the asset files
//! of one template; a match against any variant counts. Missing files are
//! skipped by the loader, so an empty set means "never matches".
use vstd::prelude::*;

verus! {
pub const ASSET_ROOT: &'static str = "assets/macos/arena.ai/templates";
pub const SEND_BUTTON_DARK_100: &'static str = "assets/macos/arena.ai/templates/send_button_dark_100.png";
pub const SEND_BUTTON_DARK_125: &'static str = "assets/macos/arena.ai/templates/send_button_dark_125.png";
pub const SEND_BUTTON_LIGHT_100: &'static str = "assets/macos/arena.ai/templates/send_button_light_100.png";
pub const STOP_BUTTON_DARK_100: &'static str = "assets/macos/arena.ai/templates/stop_button_dark_100.png";
pub const RERUN_BUTTON_DARK_100: &'static str = "assets/macos/arena.ai/templates/rerun_button_dark_100.png";
pub const COPY_BUTTON_DARK_100: &'static str = "assets/macos/arena.ai/templates/copy_button_dark_100.png";
pub const CHOICE_SKIP_BUTTON_DARK_100: &'static str = "assets/macos/arena.ai/templates/choice_skip_button_dark_100.png";
pub const CHOICE_SKIP_LABEL_DARK_100: &'static str = "assets/macos/arena.ai/templates/choice_skip_label_dark_100.png";
pub const ERROR_BANNER_DARK: &'static str = "assets/macos/arena.ai/templates/error_banner_dark.png";
pub const CHAT_FULL_DARK: &'static str = "assets/macos/arena.ai/templates/chat_full_dark.png";
pub const MODE_DIRECT_DARK: &'static str = "assets/macos/arena.ai/templates/mode_direct_dark.png";
pub const MODE_BATTLE_DARK: &'static str = "assets/macos/arena.ai/templates/mode_battle_dark.png";
pub const NEW_CHAT_DARK_COLLAPSED: &'static str = "assets/macos/arena.ai/templates/new_chat_dark_collapsed.png";
pub const NEW_CHAT_DARK_EXPANDED: &'static str = "assets/macos/arena.ai/templates/new_chat_dark_expanded.png";
pub const PREVIEW_TOGGLE_DARK: &'static str = "assets/macos/arena.ai/templates/preview_toggle_dark.png";
pub const CODE_TOGGLE_DARK: &'static str = "assets/macos/arena.ai/templates/code_toggle_dark.png";
pub const DOWNLOAD_BUTTON_DARK: &'static str = "assets/macos/arena.ai/templates/download_button_dark.png";
pub const ATTACH_BUTTON_DARK: &'static str = "assets/macos/arena.ai/templates/attach_button_dark.png";
pub const ATTACH_CLOSE_BUTTON_DARK: &'static str = "assets/macos/arena.ai/templates/attach_close_button_dark.png";

pub fn send_button() -> (paths: Vec<&'static str>)
    ensures
        paths@ == seq![SEND_BUTTON_DARK_100, SEND_BUTTON_DARK_125, SEND_BUTTON_LIGHT_100],
{
    vec![SEND_BUTTON_DARK_100, SEND_BUTTON_DARK_125, SEND_BUTTON_LIGHT_100]
}

pub fn stop_button() -> (paths: Vec<&'static str>)
    ensures
        paths@ == seq![STOP_BUTTON_DARK_100],
{
    vec![STOP_BUTTON_DARK_100]
}

pub fn rerun_button() -> (paths: Vec<&'static str>)
    ensures
        paths@ == seq![RERUN_BUTTON_DARK_100],
{
    vec![RERUN_BUTTON_DARK_100]
}

pub fn copy_button() -> (paths: Vec<&'static str>)
    ensures
        paths@ == seq![COPY_BUTTON_DARK_100],
{
    vec![COPY_BUTTON_DARK_100]
}

pub fn choice_skip_button() -> (paths: Vec<&'static str>)
    ensures
        paths@ == seq![CHOICE_SKIP_BUTTON_DARK_100],
{
    vec![CHOICE_SKIP_BUTTON_DARK_100]
}

pub fn error_banner() -> (paths: Vec<&'static str>)
    ensures
        paths@ == seq![ERROR_BANNER_DARK],
{
    vec![ERROR_BANNER_DARK]
}

pub fn chat_full_modal() -> (paths: Vec<&'static str>)
    ensures
        paths@ == seq![CHAT_FULL_DARK],
{
    vec![CHAT_FULL_DARK]
}

pub fn mode_direct() -> (paths: Vec<&'static str>)
    ensures
        paths@ == seq![MODE_DIRECT_DARK],
{
    vec![MODE_DIRECT_DARK]
}

pub fn new_chat_button() -> (paths: Vec<&'static str>)
    ensures
        paths@ == seq![NEW_CHAT_DARK_COLLAPSED, NEW_CHAT_DARK_EXPANDED],
{
    vec![NEW_CHAT_DARK_COLLAPSED, NEW_CHAT_DARK_EXPANDED]
}

/// Only the collapsed-sidebar variant — used for unambiguous detection
/// of whether the sidebar is currently collapsed.
pub fn new_chat_collapsed_only() -> (paths: Vec<&'static str>)
    ensures
        paths@ == seq![NEW_CHAT_DARK_COLLAPSED],
{
    vec![NEW_CHAT_DARK_COLLAPSED]
}

/// Only the expanded-sidebar variant — symmetric to the above.
pub fn new_chat_expanded_only() -> (paths: Vec<&'static str>)
    ensures
        paths@ == seq![NEW_CHAT_DARK_EXPANDED],
{
    vec![NEW_CHAT_DARK_EXPANDED]
}

pub fn preview_toggle() -> (paths: Vec<&'static str>)
    ensures
        paths@ == seq![PREVIEW_TOGGLE_DARK],
{
    vec![PREVIEW_TOGGLE_DARK]
}

pub fn code_toggle() -> (paths: Vec<&'static str>)
    ensures
        paths@ == seq![CODE_TOGGLE_DARK],
{
    vec![CODE_TOGGLE_DARK]
}

pub fn download_button() -> (paths: Vec<&'static str>)
    ensures
        paths@ == seq![DOWNLOAD_BUTTON_DARK],
{
    vec![DOWNLOAD_BUTTON_DARK]
}

pub fn attach_button() -> (paths: Vec<&'static str>)
    ensures
        paths@ == seq![ATTACH_BUTTON_DARK],
{
    vec![ATTACH_BUTTON_DARK]
}

/// The × close button on an attached-file chip. Empty until the template is
/// captured — `load_or_skip` returns [] gracefully, triggering the pixel heuristic.
pub fn attach_close_button() -> (paths: Vec<&'static str>)
    ensures
        paths@ == seq![ATTACH_CLOSE_BUTTON_DARK],
{
    vec![ATTACH_CLOSE_BUTTON_DARK]
}

} // verus!
