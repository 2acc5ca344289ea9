//! Interpreting what the browser reports through AppleScript on macOS, and
//! building the scripts that drive it.
//!
//! Running `osascript` happens outside; the functions here take its reply
//! (already trimmed, see `osascript_reply`) and compute the result the
//! caller sees.
use vstd::prelude::*;
use crate::browser_state::{TabRef, tab_view, TabView};
use crate::parse::{
    IntErrorKind, int_error_text, lines_bounds, lines_spec, parse_i32, parse_int_spec, parse_usize,
    split_bounds, split_spec, splitn_bounds, splitn_spec, trim_bounds, trim_spec, trim_string,
};
use crate::text::{chars_of, has_substr, lower_text, push_char, str_contains, string_of, to_lowercase};

verus! {

/// The reply of a finished `osascript` run: its trimmed standard output on
/// success, its trimmed standard error otherwise.
pub fn osascript_reply(success: bool, stdout: &str, stderr: &str) -> (r: Result<String, String>)
    ensures
        success ==> (r matches Ok(o) && o@ == trim_spec(stdout@)),
        !success ==> (r matches Err(e) && e@ == trim_spec(stderr@)),
{
    if success {
        Ok(trim_string(stdout))
    } else {
        Err(trim_string(stderr))
    }
}

/// Whether `v[a..b]` holds exactly the characters of `lit`.
fn range_is(v: &Vec<char>, a: usize, b: usize, lit: &str) -> (r: bool)
    requires
        a <= b <= v.len(),
    ensures
        r == (v@.subrange(a as int, b as int) == lit@),
{
    let l = chars_of(lit);
    if b - a != l.len() {
        return false;
    }
    let mut i: usize = 0;
    while i < l.len()
        invariant
            a <= b <= v.len(),
            b - a == l.len(),
            l@ == lit@,
            i <= l.len(),
            forall|k: int| 0 <= k < i ==> v@[a + k] == l@[k],
        decreases l.len() - i,
    {
        if v[a + i] != l[i] {
            assert(v@.subrange(a as int, b as int)[i as int] != l@[i as int]);
            return false;
        }
        i += 1;
    }
    assert(v@.subrange(a as int, b as int) =~= l@);
    true
}

// ── Quoting ─────────────────────────────────────────────────────────────────

/// `s` with every `"` preceded by a backslash, as `s.replace('"', "\\\"")`.
pub open spec fn escape_quotes_spec(s: Seq<char>) -> Seq<char>
    decreases s.len(),
{
    if s.len() == 0 {
        Seq::empty()
    } else {
        let rest = escape_quotes_spec(s.drop_last());
        if s.last() == '"' {
            rest.push('\\').push('"')
        } else {
            rest.push(s.last())
        }
    }
}

pub fn escape_quotes(s: &str) -> (r: String)
    ensures
        r@ == escape_quotes_spec(s@),
{
    let v = chars_of(s);
    let mut r = String::new();
    let mut i: usize = 0;
    while i < v.len()
        invariant
            i <= v.len(),
            r@ == escape_quotes_spec(v@.take(i as int)),
        decreases v.len() - i,
    {
        proof {
            assert(v@.take(i + 1).drop_last() == v@.take(i as int));
        }
        if v[i] == '"' {
            push_char(&mut r, '\\');
            push_char(&mut r, '"');
        } else {
            push_char(&mut r, v[i]);
        }
        i += 1;
    }
    proof {
        assert(v@.take(v.len() as int) == v@);
    }
    r
}

// ── Scripts ─────────────────────────────────────────────────────────────────

/// Script that brings the first tab whose URL contains `url_substr` to front.
pub open spec fn focus_tab_script_spec(url_substr: Seq<char>) -> Seq<char> {
    "\n            tell application \"Google Chrome\"\n                set foundWin to missing value\n                set foundTab to 0\n                repeat with wi from 1 to count windows\n                    set theWindow to window wi\n                    repeat with ti from 1 to count tabs of theWindow\n                        if URL of tab ti of theWindow contains \""@ + escape_quotes_spec(url_substr) + "\" then\n                            set foundWin to theWindow\n                            set foundTab to ti\n                            exit repeat\n                        end if\n                    end repeat\n                    if foundWin is not missing value then exit repeat\n                end repeat\n                if foundWin is missing value then\n                    return \"not_found\"\n                end if\n                set active tab index of foundWin to foundTab\n                set index of foundWin to 1\n                activate\n                return \"ok\"\n            end tell\n        "@
}

pub fn focus_tab_script(url_substr: &str) -> (r: String)
    ensures
        r@ == focus_tab_script_spec(url_substr@),
{
    let mut r = String::from_str("\n            tell application \"Google Chrome\"\n                set foundWin to missing value\n                set foundTab to 0\n                repeat with wi from 1 to count windows\n                    set theWindow to window wi\n                    repeat with ti from 1 to count tabs of theWindow\n                        if URL of tab ti of theWindow contains \"");
    let e = escape_quotes(url_substr);
    r.append(e.as_str());
    r.append("\" then\n                            set foundWin to theWindow\n                            set foundTab to ti\n                            exit repeat\n                        end if\n                    end repeat\n                    if foundWin is not missing value then exit repeat\n                end repeat\n                if foundWin is missing value then\n                    return \"not_found\"\n                end if\n                set active tab index of foundWin to foundTab\n                set index of foundWin to 1\n                activate\n                return \"ok\"\n            end tell\n        ");
    r
}

/// Script that sets Chrome's native-fullscreen flag.
pub open spec fn fullscreen_script_spec(on: bool) -> Seq<char> {
    "\n            tell application \"System Events\"\n                tell process \"Google Chrome\"\n                    if (count of windows) is 0 then\n                        return \"no_window\"\n                    end if\n                    set value of attribute \"AXFullScreen\" of window 1 to "@ + (if on { "true"@ } else { "false"@ }) + "\n                    return \"ok\"\n                end tell\n            end tell\n        "@
}

pub fn fullscreen_script(on: bool) -> (r: String)
    ensures
        r@ == fullscreen_script_spec(on),
{
    let mut r = String::from_str("\n            tell application \"System Events\"\n                tell process \"Google Chrome\"\n                    if (count of windows) is 0 then\n                        return \"no_window\"\n                    end if\n                    set value of attribute \"AXFullScreen\" of window 1 to ");
    r.append(if on { "true" } else { "false" });
    r.append("\n                    return \"ok\"\n                end tell\n            end tell\n        ");
    r
}

/// Script that points the current tab at `url`.
pub open spec fn navigate_script_spec(url: Seq<char>) -> Seq<char> {
    "tell application \"Google Chrome\" to set URL of active tab of front window to \""@ + escape_quotes_spec(url) + "\""@
}

pub fn navigate_script(url: &str) -> (r: String)
    ensures
        r@ == navigate_script_spec(url@),
{
    let mut r = String::from_str("tell application \"Google Chrome\" to set URL of active tab of front window to \"");
    let e = escape_quotes(url);
    r.append(e.as_str());
    r.append("\"");
    r
}

/// Application names to try for a browser hint.
pub open spec fn candidate_app_names_spec(hint: Seq<char>) -> Seq<Seq<char>> {
    let h = lower_text(hint);
    if has_substr(h, "chrome"@) {
        seq!["Google Chrome"@]
    } else if has_substr(h, "safari"@) {
        seq!["Safari"@]
    } else if has_substr(h, "firefox"@) {
        seq!["Firefox"@]
    } else if has_substr(h, "edge"@) {
        seq!["Microsoft Edge"@]
    } else if has_substr(h, "brave"@) {
        seq!["Brave Browser"@]
    } else if has_substr(h, "arc"@) {
        seq!["Arc"@]
    } else {
        seq!["Google Chrome"@]
    }
}

pub open spec fn str_views(v: Seq<&str>) -> Seq<Seq<char>> {
    Seq::new(v.len(), |i: int| v[i]@)
}

pub fn candidate_app_names(hint: &str) -> (r: Vec<&'static str>)
    ensures
        str_views(r@) == candidate_app_names_spec(hint@),
{
    let lower = to_lowercase(hint);
    let h = lower.as_str();
    let r = if str_contains(h, "chrome") {
        vec!["Google Chrome"]
    } else if str_contains(h, "safari") {
        vec!["Safari"]
    } else if str_contains(h, "firefox") {
        vec!["Firefox"]
    } else if str_contains(h, "edge") {
        vec!["Microsoft Edge"]
    } else if str_contains(h, "brave") {
        vec!["Brave Browser"]
    } else if str_contains(h, "arc") {
        vec!["Arc"]
    } else {
        vec!["Google Chrome"]
    };
    assert(str_views(r@) =~= candidate_app_names_spec(hint@));
    r
}

// ── Replies ─────────────────────────────────────────────────────────────────

/// The tab a `window|tab|url|title` line describes, if both indices parse.
pub open spec fn tab_of_line(line: Seq<char>) -> Option<TabView> {
    let parts = splitn_spec(line, 4, '|');
    if parts.len() < 4 {
        None
    } else {
        match (parse_int_spec(parts[0], false, 0, usize::MAX as int), parse_int_spec(parts[1], false, 0, usize::MAX as int)) {
            (Ok(w), Ok(t)) => Some((w as usize, t as usize, parts[2], parts[3])),
            _ => None,
        }
    }
}

/// The tabs described by the lines, in order; other lines are skipped.
pub open spec fn tabs_of(lines: Seq<Seq<char>>) -> Seq<TabView>
    decreases lines.len(),
{
    if lines.len() == 0 {
        Seq::empty()
    } else {
        let rest = tabs_of(lines.drop_last());
        match tab_of_line(lines.last()) {
            Some(t) => rest.push(t),
            None => rest,
        }
    }
}

/// The tab list from the enumeration script's reply: one tab per line,
/// window-major.
pub fn list_chrome_tabs(reply: Result<String, String>) -> (r: Result<Vec<TabRef>, String>)
    ensures
        reply matches Err(e) ==> r == Err::<Vec<TabRef>, String>(e),
        reply matches Ok(raw) ==> (r matches Ok(tabs) && tabs@.len() == tabs_of(lines_spec(raw@)).len()
            && forall|i: int| 0 <= i < tabs@.len() ==> tab_view(#[trigger] tabs@[i]) == tabs_of(lines_spec(raw@))[i]),
{
    let raw = match reply {
        Ok(raw) => raw,
        Err(e) => return Err(e),
    };
    let v = chars_of(raw.as_str());
    let lines = lines_bounds(&v);
    let ghost all = lines_spec(v@);
    let mut tabs: Vec<TabRef> = Vec::new();
    let mut li: usize = 0;
    while li < lines.len()
        invariant
            li <= lines.len() == all.len(),
            all == lines_spec(v@),
            forall|i: int| 0 <= i < lines@.len() ==> (#[trigger] lines@[i]).0 <= lines@[i].1 <= v.len() && v@.subrange(
                lines@[i].0 as int,
                lines@[i].1 as int,
            ) == all[i],
            tabs@.len() == tabs_of(all.take(li as int)).len(),
            forall|i: int| 0 <= i < tabs@.len() ==> tab_view(#[trigger] tabs@[i]) == tabs_of(all.take(li as int))[i],
        decreases lines.len() - li,
    {
        let (a, b) = lines[li];
        let ghost line = all[li as int];
        proof {
            assert(all.take(li + 1).drop_last() == all.take(li as int));
            assert(all.take(li + 1).last() == line);
        }
        let parts = splitn_bounds(&v, a, b, 4, '|');
        if parts.len() >= 4 {
            let (p0a, p0b) = parts[0];
            let (p1a, p1b) = parts[1];
            let (p2a, p2b) = parts[2];
            let (p3a, p3b) = parts[3];
            let wi = parse_usize(&v, p0a, p0b);
            let ti = parse_usize(&v, p1a, p1b);
            match (wi, ti) {
                (Ok(w), Ok(t)) => {
                    let url = string_of(&v, p2a, p2b);
                    let title = string_of(&v, p3a, p3b);
                    tabs.push(TabRef { window_index: w, tab_index: t, url, title });
                },
                _ => {},
            }
        }
        li += 1;
    }
    proof {
        assert(all.take(lines.len() as int) == all);
    }
    Ok(tabs)
}

/// One `index|x1|y1|x2|y2|url` window line; unparsable numbers read as -1
/// for the index and 0 for the bounds.
pub type WindowView = (i32, i32, i32, i32, i32, Seq<char>);

pub open spec fn int_or(r: Result<int, IntErrorKind>, d: i32) -> i32 {
    match r {
        Ok(x) => x as i32,
        Err(_) => d,
    }
}

pub open spec fn window_of_line(line: Seq<char>) -> Option<WindowView> {
    let parts = splitn_spec(line, 6, '|');
    if parts.len() != 6 {
        None
    } else {
        Some((
            int_or(parse_int_spec(parts[0], true, i32::MIN as int, i32::MAX as int), -1i32),
            int_or(parse_int_spec(parts[1], true, i32::MIN as int, i32::MAX as int), 0i32),
            int_or(parse_int_spec(parts[2], true, i32::MIN as int, i32::MAX as int), 0i32),
            int_or(parse_int_spec(parts[3], true, i32::MIN as int, i32::MAX as int), 0i32),
            int_or(parse_int_spec(parts[4], true, i32::MIN as int, i32::MAX as int), 0i32),
            parts[5],
        ))
    }
}

pub open spec fn windows_of(lines: Seq<Seq<char>>) -> Seq<WindowView>
    decreases lines.len(),
{
    if lines.len() == 0 {
        Seq::empty()
    } else {
        let rest = windows_of(lines.drop_last());
        match window_of_line(lines.last()) {
            Some(w) => rest.push(w),
            None => rest,
        }
    }
}

pub open spec fn window_view(w: (i32, i32, i32, i32, i32, String)) -> WindowView {
    (w.0, w.1, w.2, w.3, w.4, w.5@)
}

fn i32_or(v: &Vec<char>, a: usize, b: usize, d: i32) -> (r: i32)
    requires
        a <= b <= v.len(),
    ensures
        r == int_or(parse_int_spec(v@.subrange(a as int, b as int), true, i32::MIN as int, i32::MAX as int), d),
{
    match parse_i32(v, a, b) {
        Ok(x) => x,
        Err(_) => d,
    }
}

/// Every Chrome window with its bounds and active-tab URL.
pub fn chrome_list_windows(reply: Result<String, String>) -> (r: Result<Vec<(i32, i32, i32, i32, i32, String)>, String>)
    ensures
        reply matches Err(e) ==> r == Err::<Vec<(i32, i32, i32, i32, i32, String)>, String>(e),
        reply matches Ok(raw) ==> (r matches Ok(ws) && ws@.len() == windows_of(lines_spec(raw@)).len()
            && forall|i: int| 0 <= i < ws@.len() ==> window_view(#[trigger] ws@[i]) == windows_of(lines_spec(raw@))[i]),
{
    let raw = match reply {
        Ok(raw) => raw,
        Err(e) => return Err(e),
    };
    let v = chars_of(raw.as_str());
    let lines = lines_bounds(&v);
    let ghost all = lines_spec(v@);
    let mut out: Vec<(i32, i32, i32, i32, i32, String)> = Vec::new();
    let mut li: usize = 0;
    while li < lines.len()
        invariant
            li <= lines.len() == all.len(),
            all == lines_spec(v@),
            forall|i: int| 0 <= i < lines@.len() ==> (#[trigger] lines@[i]).0 <= lines@[i].1 <= v.len() && v@.subrange(
                lines@[i].0 as int,
                lines@[i].1 as int,
            ) == all[i],
            out@.len() == windows_of(all.take(li as int)).len(),
            forall|i: int| 0 <= i < out@.len() ==> window_view(#[trigger] out@[i]) == windows_of(all.take(li as int))[i],
        decreases lines.len() - li,
    {
        let (a, b) = lines[li];
        proof {
            assert(all.take(li + 1).drop_last() == all.take(li as int));
            assert(all.take(li + 1).last() == all[li as int]);
        }
        let parts = splitn_bounds(&v, a, b, 6, '|');
        if parts.len() == 6 {
            let idx = i32_or(&v, parts[0].0, parts[0].1, -1);
            let x1 = i32_or(&v, parts[1].0, parts[1].1, 0);
            let y1 = i32_or(&v, parts[2].0, parts[2].1, 0);
            let x2 = i32_or(&v, parts[3].0, parts[3].1, 0);
            let y2 = i32_or(&v, parts[4].0, parts[4].1, 0);
            let url = string_of(&v, parts[5].0, parts[5].1);
            out.push((idx, x1, y1, x2, y2, url));
        }
        li += 1;
    }
    proof {
        assert(all.take(lines.len() as int) == all);
    }
    Ok(out)
}

/// The four bounds of the front window, from `x1,y1,x2,y2`.
pub open spec fn bounds_result(raw: Seq<char>) -> Result<(i32, i32, i32, i32), Seq<char>> {
    let parts = split_spec(raw, ',');
    if raw == "no_window"@ {
        Err("no_window"@)
    } else if parts.len() != 4 {
        Err("unexpected bounds output: '"@ + raw + "'"@)
    } else {
        let p0 = parse_int_spec(trim_spec(parts[0]), true, i32::MIN as int, i32::MAX as int);
        let p1 = parse_int_spec(trim_spec(parts[1]), true, i32::MIN as int, i32::MAX as int);
        let p2 = parse_int_spec(trim_spec(parts[2]), true, i32::MIN as int, i32::MAX as int);
        let p3 = parse_int_spec(trim_spec(parts[3]), true, i32::MIN as int, i32::MAX as int);
        match (p0, p1, p2, p3) {
            (Ok(a), Ok(b), Ok(c), Ok(d)) => Ok((a as i32, b as i32, c as i32, d as i32)),
            _ => {
                let e = if p0 is Err {
                    p0->Err_0
                } else if p1 is Err {
                    p1->Err_0
                } else if p2 is Err {
                    p2->Err_0
                } else {
                    p3->Err_0
                };
                Err("bounds parse: "@ + int_error_text(e) + " from '"@ + raw + "'"@)
            },
        }
    }
}

fn bound_at(v: &Vec<char>, a: usize, b: usize) -> (r: Result<i32, IntErrorKind>)
    requires
        a <= b <= v.len(),
    ensures
        match parse_int_spec(trim_spec(v@.subrange(a as int, b as int)), true, i32::MIN as int, i32::MAX as int) {
            Ok(x) => r == Ok::<i32, IntErrorKind>(x as i32),
            Err(e) => r == Err::<i32, IntErrorKind>(e),
        },
{
    let (ta, tb) = trim_bounds(v, a, b);
    parse_i32(v, ta, tb)
}

fn bounds_parse_error(e: IntErrorKind, raw: &str) -> (r: String)
    ensures
        r@ == "bounds parse: "@ + int_error_text(e) + " from '"@ + raw@ + "'"@,
{
    let mut r = String::from_str("bounds parse: ");
    r.append(e.message());
    r.append(" from '");
    r.append(raw);
    r.append("'");
    r
}

/// Front window bounds as `(x1, y1, x2, y2)`.
pub fn chrome_window_bounds(reply: Result<String, String>) -> (r: Result<(i32, i32, i32, i32), String>)
    ensures
        reply matches Err(e) ==> r == Err::<(i32, i32, i32, i32), String>(e),
        reply matches Ok(raw) ==> match bounds_result(raw@) {
            Ok(b) => r == Ok::<(i32, i32, i32, i32), String>(b),
            Err(m) => r matches Err(e) && e@ == m,
        },
{
    let raw = match reply {
        Ok(raw) => raw,
        Err(e) => return Err(e),
    };
    let v = chars_of(raw.as_str());
    proof {
        assert(v@.subrange(0, v@.len() as int) == v@);
    }
    if range_is(&v, 0, v.len(), "no_window") {
        return Err(String::from_str("no_window"));
    }
    let parts = split_bounds(&v, 0, v.len(), ',');
    if parts.len() != 4 {
        let mut m = String::from_str("unexpected bounds output: '");
        m.append(raw.as_str());
        m.append("'");
        return Err(m);
    }
    let p0 = bound_at(&v, parts[0].0, parts[0].1);
    let p1 = bound_at(&v, parts[1].0, parts[1].1);
    let p2 = bound_at(&v, parts[2].0, parts[2].1);
    let p3 = bound_at(&v, parts[3].0, parts[3].1);
    match (p0, p1, p2, p3) {
        (Ok(a), Ok(b), Ok(c), Ok(d)) => Ok((a, b, c, d)),
        (Err(e), _, _, _) => Err(bounds_parse_error(e, raw.as_str())),
        (Ok(_), Err(e), _, _) => Err(bounds_parse_error(e, raw.as_str())),
        (Ok(_), Ok(_), Err(e), _) => Err(bounds_parse_error(e, raw.as_str())),
        (Ok(_), Ok(_), Ok(_), Err(e)) => Err(bounds_parse_error(e, raw.as_str())),
    }
}

/// Whether the front window is in native fullscreen, from the
/// `AXFullScreen` script's reply.
pub fn is_chrome_fullscreen(reply: Result<String, String>) -> (r: Result<bool, String>)
    ensures
        reply matches Err(e) ==> r == Err::<bool, String>(e),
        reply matches Ok(out) ==> (if out@ == "true"@ {
            r == Ok::<bool, String>(true)
        } else if out@ == "false"@ {
            r == Ok::<bool, String>(false)
        } else if out@ == "no_window"@ {
            r matches Err(e) && e@ == "no_window"@
        } else if out@ == "unknown"@ {
            r matches Err(e) && e@ == "unknown"@
        } else {
            r matches Err(e) && e@ == "unexpected AXFullScreen value: "@ + out@
        }),
{
    let out = match reply {
        Ok(out) => out,
        Err(e) => return Err(e),
    };
    let v = chars_of(out.as_str());
    let n = v.len();
    proof {
        assert(v@.subrange(0, n as int) == v@);
    }
    if range_is(&v, 0, n, "true") {
        Ok(true)
    } else if range_is(&v, 0, n, "false") {
        Ok(false)
    } else if range_is(&v, 0, n, "no_window") {
        Err(String::from_str("no_window"))
    } else if range_is(&v, 0, n, "unknown") {
        Err(String::from_str("unknown"))
    } else {
        let mut m = String::from_str("unexpected AXFullScreen value: ");
        m.append(out.as_str());
        Err(m)
    }
}

/// Whether the Arena chat tab was found and focused, from the focusing
/// script's reply (`not_found`, or `ok|<url>`).
pub fn focus_chrome_arena_chat_tab(reply: Result<String, String>) -> (r: Result<bool, String>)
    ensures
        reply matches Err(e) ==> r == Err::<bool, String>(e),
        reply matches Ok(out) ==> ({
            let t = trim_spec(out@);
            if t == "not_found"@ {
                r == Ok::<bool, String>(false)
            } else if t.len() >= 3 && t.take(3) == "ok|"@ {
                r == Ok::<bool, String>(true)
            } else {
                r matches Err(e) && e@ == "unexpected osascript output: "@ + t
            }
        }),
{
    let out = match reply {
        Ok(out) => out,
        Err(e) => return Err(e),
    };
    let v = chars_of(out.as_str());
    proof {
        assert(v@.subrange(0, v@.len() as int) == v@);
    }
    let (a, b) = trim_bounds(&v, 0, v.len());
    if range_is(&v, a, b, "not_found") {
        return Ok(false);
    }
    if b - a >= 3 && range_is(&v, a, a + 3, "ok|") {
        proof {
            assert(v@.subrange(a as int, b as int).take(3) == v@.subrange(a as int, a + 3));
        }
        return Ok(true);
    }
    proof {
        if b - a >= 3 {
            assert(v@.subrange(a as int, b as int).take(3) == v@.subrange(a as int, a + 3));
        }
    }
    let mut m = String::from_str("unexpected osascript output: ");
    let t = string_of(&v, a, b);
    m.append(t.as_str());
    Err(m)
}

/// Whether a tab matched and was focused, from the focusing script's reply.
pub fn focus_chrome_tab_by_url(reply: Result<String, String>) -> (r: Result<bool, String>)
    ensures
        reply matches Err(e) ==> r == Err::<bool, String>(e),
        reply matches Ok(out) ==> r == Ok::<bool, String>(trim_spec(out@) == "ok"@),
{
    let out = match reply {
        Ok(out) => out,
        Err(e) => return Err(e),
    };
    let v = chars_of(out.as_str());
    proof {
        assert(v@.subrange(0, v@.len() as int) == v@);
    }
    let (a, b) = trim_bounds(&v, 0, v.len());
    Ok(range_is(&v, a, b, "ok"))
}

/// Setting fullscreen succeeds when the script ran.
pub fn set_chrome_fullscreen(reply: Result<String, String>) -> (r: Result<(), String>)
    ensures
        reply matches Err(e) ==> r == Err::<(), String>(e),
        reply is Ok ==> r is Ok,
{
    match reply {
        Ok(_) => Ok(()),
        Err(e) => Err(e),
    }
}

/// Navigating succeeds when the script ran.
pub fn navigate_current_tab(reply: Result<String, String>) -> (r: Result<(), String>)
    ensures
        reply matches Err(e) ==> r == Err::<(), String>(e),
        reply is Ok ==> r is Ok,
{
    match reply {
        Ok(_) => Ok(()),
        Err(e) => Err(e),
    }
}

} // verus!
