use web_ai_automation::browser_state::macos::{
    candidate_app_names, chrome_list_windows, chrome_window_bounds, escape_quotes, focus_chrome_arena_chat_tab,
    focus_chrome_tab_by_url, focus_tab_script, fullscreen_script, is_chrome_fullscreen, list_chrome_tabs,
    navigate_current_tab, osascript_reply, set_chrome_fullscreen,
};
use web_ai_automation::browser_state::{fallback, windows};

fn ok(s: &str) -> Result<String, String> {
    Ok(String::from(s))
}

#[test]
fn osascript_replies_are_trimmed() {
    assert_eq!(osascript_reply(true, "  ok\n", "ignored"), Ok(String::from("ok")));
    assert_eq!(osascript_reply(false, "", " execution error \n"), Err(String::from("execution error")));
}

#[test]
fn tab_listing_parses_one_tab_per_line() {
    let raw = "1|1|https://arena.ai/c/1|Chat | Arena\n1|2|https://x.com|X\nbroken line\n2|x|u|t\n2|1|https://y.org|";
    let tabs = list_chrome_tabs(ok(raw)).unwrap();
    assert_eq!(tabs.len(), 3);
    assert_eq!((tabs[0].window_index, tabs[0].tab_index), (1, 1));
    assert_eq!(tabs[0].url, "https://arena.ai/c/1");
    // The title keeps any further separators.
    assert_eq!(tabs[0].title, "Chat | Arena");
    assert_eq!(tabs[1].url, "https://x.com");
    assert_eq!((tabs[2].window_index, tabs[2].tab_index), (2, 1));
    assert_eq!(tabs[2].title, "");
    assert_eq!(list_chrome_tabs(Err(String::from("no chrome"))).unwrap_err(), "no chrome");
}

#[test]
fn window_listing_defaults_unparsable_numbers() {
    let raw = "1|0|25|1512|982|https://arena.ai\nx|a|b|-5|7|\nshort|line";
    let ws = chrome_list_windows(ok(raw)).unwrap();
    assert_eq!(ws.len(), 2);
    assert_eq!(ws[0], (1, 0, 25, 1512, 982, String::from("https://arena.ai")));
    assert_eq!(ws[1], (-1, 0, 0, -5, 7, String::new()));
}

#[test]
fn window_bounds_parse_or_explain() {
    assert_eq!(chrome_window_bounds(ok("0, 25, 1512, 982")), Ok((0, 25, 1512, 982)));
    assert_eq!(chrome_window_bounds(ok("no_window")), Err(String::from("no_window")));
    assert_eq!(chrome_window_bounds(ok("1,2,3")), Err(String::from("unexpected bounds output: '1,2,3'")));
    assert_eq!(
        chrome_window_bounds(ok("1,2,x,4")),
        Err(String::from("bounds parse: invalid digit found in string from '1,2,x,4'"))
    );
    assert_eq!(chrome_window_bounds(Err(String::from("e"))), Err(String::from("e")));
}

#[test]
fn fullscreen_reply_mapping() {
    assert_eq!(is_chrome_fullscreen(ok("true")), Ok(true));
    assert_eq!(is_chrome_fullscreen(ok("false")), Ok(false));
    assert_eq!(is_chrome_fullscreen(ok("no_window")), Err(String::from("no_window")));
    assert_eq!(is_chrome_fullscreen(ok("unknown")), Err(String::from("unknown")));
    assert_eq!(is_chrome_fullscreen(ok("maybe")), Err(String::from("unexpected AXFullScreen value: maybe")));
    assert_eq!(set_chrome_fullscreen(ok("ok")), Ok(()));
    assert_eq!(navigate_current_tab(Err(String::from("e"))), Err(String::from("e")));
}

#[test]
fn tab_focusing_replies() {
    assert_eq!(focus_chrome_tab_by_url(ok(" ok ")), Ok(true));
    assert_eq!(focus_chrome_tab_by_url(ok("not_found")), Ok(false));
    assert_eq!(focus_chrome_arena_chat_tab(ok("not_found")), Ok(false));
    assert_eq!(focus_chrome_arena_chat_tab(ok("ok|https://arena.ai/c/1")), Ok(true));
    assert_eq!(focus_chrome_arena_chat_tab(ok("huh")), Err(String::from("unexpected osascript output: huh")));
}

#[test]
fn scripts_quote_their_arguments() {
    assert_eq!(escape_quotes(r#"a"b"#), r#"a\"b"#);
    assert!(focus_tab_script(r#"arena.ai/"x"#).contains(r#"contains "arena.ai/\"x" then"#));
    assert!(fullscreen_script(true).contains("to true"));
    assert!(fullscreen_script(false).contains("to false"));
}

#[test]
fn app_names_follow_the_hint() {
    assert_eq!(candidate_app_names("Chrome"), vec!["Google Chrome"]);
    assert_eq!(candidate_app_names("SAFARI"), vec!["Safari"]);
    assert_eq!(candidate_app_names("brave"), vec!["Brave Browser"]);
    assert_eq!(candidate_app_names("anything"), vec!["Google Chrome"]);
}

#[test]
fn platforms_without_a_browser_bridge_answer_plainly() {
    assert!(windows::list_chrome_tabs().is_err());
    assert_eq!(windows::focus_chrome_tab_by_url("x"), Ok(false));
    assert!(fallback::active_chrome_url().is_err());
    assert_eq!(fallback::focus_chrome_arena_chat_tab(), Ok(false));
}
