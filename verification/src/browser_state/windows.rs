//! Browser reads on Windows without a UI Automation bridge: tabs cannot be
//! enumerated or focused, so tab discovery answers `Ok(false)` (the caller
//! then opens a new tab) and the other reads report that they are
//! unsupported. The foreground window's title is read through the Win32 API
//! outside the library.
use vstd::prelude::*;
use crate::browser_state::TabRef;

verus! {

pub fn active_chrome_url() -> (r: Result<String, String>)
    ensures
        r matches Err(e) && e@ == "active_chrome_url: unsupported on Windows without a UIA bridge"@,
{
    Err(String::from_str("active_chrome_url: unsupported on Windows without a UIA bridge"))
}

pub fn list_chrome_tabs() -> (r: Result<Vec<TabRef>, String>)
    ensures
        r matches Err(e) && e@ == "list_chrome_tabs: unsupported on Windows without a UIA bridge"@,
{
    Err(String::from_str("list_chrome_tabs: unsupported on Windows without a UIA bridge"))
}

pub fn focus_chrome_tab_by_url(_url_substr: &str) -> (r: Result<bool, String>)
    ensures
        r matches Ok(b) && !b,
{
    Ok(false)
}

pub fn focus_chrome_arena_chat_tab() -> (r: Result<bool, String>)
    ensures
        r matches Ok(b) && !b,
{
    Ok(false)
}

pub fn navigate_current_tab(_url: &str) -> (r: Result<(), String>)
    ensures
        r matches Err(e) && e@ == "navigate_current_tab: not supported on Windows without a UIA bridge"@,
{
    Err(String::from_str("navigate_current_tab: not supported on Windows without a UIA bridge"))
}

pub fn is_chrome_fullscreen() -> (r: Result<bool, String>)
    ensures
        r matches Err(e) && e@ == "is_chrome_fullscreen: not supported on Windows without UIA"@,
{
    Err(String::from_str("is_chrome_fullscreen: not supported on Windows without UIA"))
}

pub fn set_chrome_fullscreen(_on: bool) -> (r: Result<(), String>)
    ensures
        r matches Err(e) && e@ == "set_chrome_fullscreen: not supported on Windows yet"@,
{
    Err(String::from_str("set_chrome_fullscreen: not supported on Windows yet"))
}

pub fn chrome_window_bounds() -> (r: Result<(i32, i32, i32, i32), String>)
    ensures
        r matches Err(e) && e@ == "chrome_window_bounds: not supported on Windows without UIA"@,
{
    Err(String::from_str("chrome_window_bounds: not supported on Windows without UIA"))
}

pub fn chrome_list_windows() -> (r: Result<Vec<(i32, i32, i32, i32, i32, String)>, String>)
    ensures
        r matches Err(e) && e@ == "chrome_list_windows: not supported on Windows without UIA"@,
{
    Err(String::from_str("chrome_list_windows: not supported on Windows without UIA"))
}

} // verus!
