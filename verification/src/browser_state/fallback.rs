//! Browser reads on platforms with no way to ask the browser: every read
//! reports that it is unsupported, and tab discovery answers `Ok(false)`.
use vstd::prelude::*;
use crate::browser_state::TabRef;

verus! {

pub fn frontmost_app_name() -> (r: Result<String, String>)
    ensures
        r matches Err(e) && e@ == "frontmost_app_name: not supported on this platform"@,
{
    Err(String::from_str("frontmost_app_name: not supported on this platform"))
}

pub fn focus_app_by_name(_n: &str) -> (r: Result<bool, String>)
    ensures
        r matches Err(e) && e@ == "focus_app_by_name: not supported on this platform"@,
{
    Err(String::from_str("focus_app_by_name: not supported on this platform"))
}

pub fn active_chrome_url() -> (r: Result<String, String>)
    ensures
        r matches Err(e) && e@ == "active_chrome_url: not supported on this platform"@,
{
    Err(String::from_str("active_chrome_url: not supported on this platform"))
}

pub fn active_chrome_title() -> (r: Result<String, String>)
    ensures
        r matches Err(e) && e@ == "active_chrome_title: not supported on this platform"@,
{
    Err(String::from_str("active_chrome_title: not supported on this platform"))
}

pub fn list_chrome_tabs() -> (r: Result<Vec<TabRef>, String>)
    ensures
        r matches Err(e) && e@ == "list_chrome_tabs: not supported on this platform"@,
{
    Err(String::from_str("list_chrome_tabs: not supported on this platform"))
}

pub fn focus_chrome_tab_by_url(_s: &str) -> (r: Result<bool, String>)
    ensures
        r matches Ok(b) && !b,
{
    Ok(false)
}

pub fn focus_chrome_arena_chat_tab() -> (r: Result<bool, String>)
    ensures
        r matches Ok(b) && !b,
{
    Ok(false)
}

pub fn navigate_current_tab(_url: &str) -> (r: Result<(), String>)
    ensures
        r matches Err(e) && e@ == "navigate_current_tab: not supported on this platform"@,
{
    Err(String::from_str("navigate_current_tab: not supported on this platform"))
}

pub fn is_chrome_fullscreen() -> (r: Result<bool, String>)
    ensures
        r matches Err(e) && e@ == "is_chrome_fullscreen: not supported on this platform"@,
{
    Err(String::from_str("is_chrome_fullscreen: not supported on this platform"))
}

pub fn set_chrome_fullscreen(_on: bool) -> (r: Result<(), String>)
    ensures
        r matches Err(e) && e@ == "set_chrome_fullscreen: not supported on this platform"@,
{
    Err(String::from_str("set_chrome_fullscreen: not supported on this platform"))
}

pub fn chrome_window_bounds() -> (r: Result<(i32, i32, i32, i32), String>)
    ensures
        r matches Err(e) && e@ == "chrome_window_bounds: not supported on this platform"@,
{
    Err(String::from_str("chrome_window_bounds: not supported on this platform"))
}

pub fn chrome_list_windows() -> (r: Result<Vec<(i32, i32, i32, i32, i32, String)>, String>)
    ensures
        r matches Err(e) && e@ == "chrome_list_windows: not supported on this platform"@,
{
    Err(String::from_str("chrome_list_windows: not supported on this platform"))
}

} // verus!
