//! The browser's state as the automation sees it: frontmost app, tabs,
//! window bounds, fullscreen flag.
//!
//! Reading it is platform-specific I/O. `macos` interprets AppleScript
//! replies and builds the scripts; `windows` and `fallback` hold the answers
//! of platforms that cannot read the browser.
use vstd::prelude::*;

pub mod fallback;
pub mod macos;
pub mod windows;

verus! {

/// A tab found by enumeration.
#[derive(Debug)]
pub struct TabRef {
    pub window_index: usize,
    pub tab_index: usize,
    pub url: String,
    pub title: String,
}

pub type TabView = (usize, usize, Seq<char>, Seq<char>);

pub open spec fn tab_view(t: TabRef) -> TabView {
    (t.window_index, t.tab_index, t.url@, t.title@)
}

} // verus!
