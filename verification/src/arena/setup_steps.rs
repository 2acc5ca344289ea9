//! The checks of Arena's one-shot session setup: whether Chrome came to
//! the front, which category page to land on, whether the window is wide
//! enough, whether Direct mode and the model are in place, and how the
//! model picker's search field is found, cleared and verified.
use vstd::prelude::*;
use crate::adapter::{Region, div_toward_zero, half_toward_zero};
use crate::arena::regions::Regions;
use crate::arena::session_setup::{is_marketing_title, marketing_title};
use crate::matrix::GrayMatrix;
use crate::session::PromptMode;
use crate::stats::{PixelStats, mean_at_least, variance_above, variance_at_least, variances_combo};
use crate::text::{chars_eq, chars_of, has_substr, lower_text, str_contains, to_lowercase};

verus! {

/// Chrome is the frontmost application (compared lowercased).
pub fn frontmost_is_chrome(app: &str) -> (b: bool)
    ensures
        b == has_substr(lower_text(app@), "chrome"@),
{
    let l = to_lowercase(app);
    str_contains(l.as_str(), "chrome")
}

/// The category page a session lands on, and the path segment that shows
/// it: Arena's Code filter for coding, its Text filter for research.
pub open spec fn category_spec(mode: PromptMode) -> (Seq<char>, Seq<char>) {
    match mode {
        PromptMode::Coding => ("https://arena.ai/code/direct"@, "/code/"@),
        PromptMode::Research => ("https://arena.ai/text/direct"@, "/text/"@),
    }
}

pub fn category_target(mode: PromptMode) -> (t: (&'static str, &'static str))
    ensures
        (t.0@, t.1@) == category_spec(mode),
{
    match mode {
        PromptMode::Coding => ("https://arena.ai/code/direct", "/code/"),
        PromptMode::Research => ("https://arena.ai/text/direct", "/text/"),
    }
}

/// The tab must be sent to the category page: it is not on it, or it shows
/// a marketing page.
pub fn needs_category_navigation(url: &str, title: &str, mode: PromptMode) -> (b: bool)
    ensures
        b == (!has_substr(url@, category_spec(mode).1) || marketing_title(lower_text(title@))),
{
    let (_, segment) = category_target(mode);
    !str_contains(url, segment) || is_marketing_title(title)
}

/// The tab is on Arena.
pub fn on_arena(url: &str) -> (b: bool)
    ensures
        b == has_substr(url@, "arena.ai"@),
{
    str_contains(url, "arena.ai")
}

/// Chrome's window spans the screen's width, give or take 8 pixels: the
/// calibrated regions assume content across the full width.
pub fn window_fills_width(window_width: i32, screen_width: i32) -> (b: bool)
    ensures
        b == (window_width >= screen_width - 8),
{
    (window_width as i64) >= (screen_width as i64) - 8
}

/// The page is in Direct mode.
pub fn in_direct_mode(url: &str) -> (b: bool)
    ensures
        b == has_substr(url@, "/direct"@),
{
    str_contains(url, "/direct")
}

/// The tab title already names the wanted model (compared lowercased).
pub open spec fn model_shown(current: Option<Seq<char>>, model: Seq<char>) -> bool {
    match current {
        Some(m) => has_substr(lower_text(m), lower_text(model)),
        None => false,
    }
}

pub fn model_already_selected(current: &Option<String>, model: &str) -> (b: bool)
    ensures
        b == model_shown(
            match current {
                Some(m) => Some(m@),
                None => None,
            },
            model@,
        ),
{
    match current {
        Some(m) => {
            let a = to_lowercase(m.as_str());
            let b = to_lowercase(model);
            str_contains(a.as_str(), b.as_str())
        },
        None => false,
    }
}

/// The model picker's header: its place depends on whether the sidebar is
/// expanded.
pub fn model_header(r: &Regions, sidebar_expanded: bool) -> (g: Region)
    ensures
        g == (if sidebar_expanded { r.model_dropdown_expanded } else { r.model_dropdown }),
{
    if sidebar_expanded {
        r.model_dropdown_expanded
    } else {
        r.model_dropdown
    }
}

/// The top of an open model menu, searched for its first row: inset 20
/// pixels left and right, from 4 to 80 pixels below the menu's top.
pub open spec fn search_rows_spec(menu: Region) -> Region {
    Region {
        x1: (menu.x1 + 20) as i32,
        y1: (menu.y1 + 4) as i32,
        x2: (menu.x2 - 20) as i32,
        y2: (menu.y1 + 80) as i32,
    }
}

pub fn search_rows_region(menu: Region) -> (g: Region)
    requires
        menu.x1 + 20 <= i32::MAX,
        menu.x2 - 20 >= i32::MIN,
        menu.y1 + 80 <= i32::MAX,
    ensures
        g == search_rows_spec(menu),
{
    Region { x1: menu.x1 + 20, y1: menu.y1 + 4, x2: menu.x2 - 20, y2: menu.y1 + 80 }
}

/// Where to click the picker's search field: the menu's middle column, on
/// the first row found there, else 25 pixels below the menu's top.
pub open spec fn search_click_spec(menu: Region, rows: Seq<i32>) -> (int, int) {
    (
        half_toward_zero(menu.x1 + menu.x2),
        if rows.len() > 0 { rows[0] as int } else { menu.y1 + 25 },
    )
}

pub fn search_click_point(menu: Region, rows: &Vec<i32>) -> (p: (i32, i32))
    requires
        i32::MIN <= menu.x1 + menu.x2 <= i32::MAX,
        menu.y1 + 25 <= i32::MAX,
    ensures
        p.0 == search_click_spec(menu, rows@).0,
        p.1 == search_click_spec(menu, rows@).1,
{
    let y = if rows.len() > 0 { rows[0] } else { menu.y1 + 25 };
    ((menu.x1 + menu.x2) / 2, y)
}

/// The search field holds old text (variance above 200) and is cleared
/// before pasting.
pub fn search_needs_clearing(field: &GrayMatrix) -> (b: bool)
    ensures
        b == variance_above(field.data@, 200),
{
    PixelStats::of_all(&field.data).variance_above(200)
}

/// The paste reached the search field: at least 2 % of its pixels changed
/// (`changed` of them), and its variance rose by at least 30 to at least
/// 80. `pre` and `post` capture the same field.
pub open spec fn search_paste_spec(pre: Seq<u8>, post: Seq<u8>, changed: int) -> bool {
    let total = if pre.len() == 0 { 1 } else { pre.len() as int };
    &&& 50 * changed >= total
    &&& (if pre.len() == 0 { 0 >= 30 } else { variances_combo(post, pre, 1, 1, 30) })
    &&& variance_at_least(post, 80)
}

pub fn search_paste_verified(pre: &GrayMatrix, post: &GrayMatrix, changed: usize) -> (b: bool)
    requires
        pre.data@.len() == post.data@.len(),
    ensures
        b == search_paste_spec(pre.data@, post.data@, changed as int),
{
    let total: u128 = if pre.data.len() == 0 { 1 } else { pre.data.len() as u128 };
    let pass_diff = 50 * (changed as u128) >= total;
    let a = PixelStats::of_all(&pre.data);
    let z = PixelStats::of_all(&post.data);
    let rose = if a.n == 0 { false } else { z.variances_combo_at_least(&a, 1, 1, 30) };
    pass_diff && rose && z.variance_at_least(80)
}

/// After picking a model the menu should be closed: a menu still dense
/// (variance at least 400) or bright (mean at least 60) did not close.
pub fn menu_panel_open(menu: &GrayMatrix) -> (b: bool)
    ensures
        b == (variance_at_least(menu.data@, 400) || mean_at_least(menu.data@, 60)),
{
    let st = PixelStats::of_all(&menu.data);
    st.variance_at_least(400) || st.mean_at_least(60)
}

/// Half the size of the area scanned around a dropdown header's expected
/// point: half the header (at least 40 by 20) less 4 and 2 pixels, at
/// least 10 by 8.
pub open spec fn dropdown_scan_half_spec(header: Region) -> (int, int) {
    let w = if header.x2 - header.x1 >= 40 { header.x2 - header.x1 } else { 40 };
    let h = if header.y2 - header.y1 >= 20 { header.y2 - header.y1 } else { 20 };
    let sw = w / 2 - 4;
    let sh = h / 2 - 2;
    (if sw >= 10 { sw } else { 10 }, if sh >= 8 { sh } else { 8 })
}

pub fn dropdown_scan_half(header: Region) -> (s: (i32, i32))
    requires
        header.x2 - header.x1 <= i32::MAX,
        header.y2 - header.y1 <= i32::MAX,
        header.x2 - header.x1 >= i32::MIN,
        header.y2 - header.y1 >= i32::MIN,
    ensures
        s.0 == dropdown_scan_half_spec(header).0,
        s.1 == dropdown_scan_half_spec(header).1,
{
    let dw = header.x2 - header.x1;
    let dh = header.y2 - header.y1;
    let w = if dw >= 40 { dw } else { 40 };
    let h = if dh >= 20 { dh } else { 20 };
    let sw = w / 2 - 4;
    let sh = h / 2 - 2;
    (if sw >= 10 { sw } else { 10 }, if sh >= 8 { sh } else { 8 })
}

// ── New chat, Direct mode and the model picker ──────────────────────────────

/// Only a conversation (`/c/` in the URL) needs the New Chat button; the
/// category pages are already fresh.
pub fn new_chat_needed(url: &str) -> (b: bool)
    ensures
        b == has_substr(url@, "/c/"@),
{
    str_contains(url, "/c/")
}

/// The New Chat click worked: the URL left the conversation or changed,
/// or the conversation's variance, above 200 before, dropped by at least
/// 40 %. `pre` and `post` capture the same conversation region.
pub open spec fn new_chat_verified_spec(pre_url: Seq<char>, post_url: Seq<char>, pre: Seq<u8>, post: Seq<u8>) -> bool {
    ||| !has_substr(post_url, "/c/"@)
    ||| post_url != pre_url
    ||| (variance_above(pre, 200) && variances_combo(pre, post, 6, 10, 0))
}

pub fn new_chat_verified(pre_url: &str, post_url: &str, pre: &GrayMatrix, post: &GrayMatrix) -> (b: bool)
    requires
        pre.data@.len() == post.data@.len(),
    ensures
        b == new_chat_verified_spec(pre_url@, post_url@, pre.data@, post.data@),
{
    if !str_contains(post_url, "/c/") {
        return true;
    }
    let a = chars_of(pre_url);
    let z = chars_of(post_url);
    if !chars_eq(&a, &z) {
        return true;
    }
    let st_pre = PixelStats::of_all(&pre.data);
    if st_pre.n == 0 || !st_pre.variance_above(200) {
        return false;
    }
    let st_post = PixelStats::of_all(&post.data);
    st_pre.variances_combo_at_least(&st_post, 6, 10, 0)
}

/// The New Chat button to click: the collapsed sidebar's or the expanded
/// one's.
pub fn new_chat_button(r: &Regions, collapsed: bool) -> (g: Region)
    ensures
        g == (if collapsed { r.new_chat_button_when_collapsed } else { r.new_chat_button_when_expanded }),
{
    if collapsed {
        r.new_chat_button_when_collapsed
    } else {
        r.new_chat_button_when_expanded
    }
}

/// The Direct row of the mode menu: the middle of the third of three equal
/// rows filling five sixths of the menu's height, in the menu's middle
/// column (whole-number divisions, rounded toward zero).
pub open spec fn direct_row_spec(menu: Region) -> (int, int) {
    let content = div_toward_zero((menu.y2 - menu.y1) * 5, 6);
    let row = div_toward_zero(content, 3);
    (half_toward_zero(menu.x1 + menu.x2), menu.y1 + row * 2 + div_toward_zero(row, 2))
}

pub fn direct_row_point(menu: Region) -> (p: (i32, i32))
    requires
        i32::MIN <= menu.y2 - menu.y1 <= i32::MAX,
        i32::MIN <= (menu.y2 - menu.y1) * 5 <= i32::MAX,
        i32::MIN <= menu.x1 + menu.x2 <= i32::MAX,
        i32::MIN <= direct_row_spec(menu).1 <= i32::MAX,
    ensures
        p.0 == direct_row_spec(menu).0,
        p.1 == direct_row_spec(menu).1,
{
    let h = menu.y2 - menu.y1;
    let content = h * 5 / 6;
    let row = content / 3;
    assert(row == div_toward_zero(div_toward_zero(h * 5, 6), 3));
    assert(-0x2000_0000 <= row <= 0x2000_0000);
    let twice = row * 2;
    let half = row / 2;
    assert(half == div_toward_zero(row as int, 2));
    assert(twice >= 0 ==> half >= 0);
    assert(twice <= 0 ==> half <= 0);
    ((menu.x1 + menu.x2) / 2, menu.y1 + twice + half)
}

/// The model picker's search input (17 pixels below the menu's top) and
/// its first result (140 below), in the menu's middle column.
pub open spec fn picker_points_spec(menu: Region) -> ((int, int), (int, int)) {
    let x = half_toward_zero(menu.x1 + menu.x2);
    ((x, menu.y1 + 17), (x, menu.y1 + 140))
}

pub fn model_picker_points(menu: Region) -> (p: ((i32, i32), (i32, i32)))
    requires
        i32::MIN <= menu.x1 + menu.x2 <= i32::MAX,
        menu.y1 + 140 <= i32::MAX,
    ensures
        p.0.0 == picker_points_spec(menu).0.0,
        p.0.1 == picker_points_spec(menu).0.1,
        p.1.0 == picker_points_spec(menu).1.0,
        p.1.1 == picker_points_spec(menu).1.1,
{
    let x = (menu.x1 + menu.x2) / 2;
    ((x, menu.y1 + 17), (x, menu.y1 + 140))
}

// ── Opening a dropdown ──────────────────────────────────────────────────────

/// Header clicks made to open a dropdown, at most: one at the expected
/// point, then up to three at the busiest spot found in the header (a
/// click may toggle an already-opened menu shut, so it is retried).
pub const MAX_DROPDOWN_CLICKS: u32 = 4;

/// What to do next while opening a dropdown.
#[derive(Clone, Copy, Debug, PartialEq, Eq, Structural)]
pub enum DropdownStep {
    /// The search row shows: the dropdown is open.
    Opened,
    /// Click the header at its expected point.
    ClickExpected,
    /// Click the header at the busiest spot the scan found (or the
    /// expected point when it found none).
    ClickScanned,
    /// Give up: the dropdown did not open.
    GiveUp,
}

/// The next step after `clicks` clicks, given whether the search row now
/// shows.
pub open spec fn dropdown_step_spec(clicks: u32, open: bool) -> DropdownStep {
    if open {
        DropdownStep::Opened
    } else if clicks == 0 {
        DropdownStep::ClickExpected
    } else if clicks < MAX_DROPDOWN_CLICKS {
        DropdownStep::ClickScanned
    } else {
        DropdownStep::GiveUp
    }
}

pub fn dropdown_step(clicks: u32, open: bool) -> (s: DropdownStep)
    ensures
        s == dropdown_step_spec(clicks, open),
{
    if open {
        DropdownStep::Opened
    } else if clicks == 0 {
        DropdownStep::ClickExpected
    } else if clicks < MAX_DROPDOWN_CLICKS {
        DropdownStep::ClickScanned
    } else {
        DropdownStep::GiveUp
    }
}

/// The clicks made while the search row never shows, after `polls`
/// checks.
pub open spec fn dropdown_clicks(polls: nat) -> nat
    decreases polls,
{
    if polls == 0 {
        0
    } else {
        let c = dropdown_clicks((polls - 1) as nat);
        match dropdown_step_spec(c as u32, false) {
            DropdownStep::ClickExpected | DropdownStep::ClickScanned => c + 1,
            _ => c,
        }
    }
}

/// However long the menu stays shut, opening a dropdown clicks its header
/// at most four times.
pub proof fn law_dropdown_clicks_bounded(polls: nat)
    ensures
        dropdown_clicks(polls) <= MAX_DROPDOWN_CLICKS,
    decreases polls,
{
    if polls > 0 {
        law_dropdown_clicks_bounded((polls - 1) as nat);
    }
}

// ── Scanning for a button by variance ───────────────────────────────────────

/// Grid spacing, in pixels.
pub const SCAN_STEP: i32 = 14;

/// The first `i` points of the grid row at `y`, every 14 pixels from
/// `x0`.
pub open spec fn grid_row(x0: int, y: int, i: int) -> Seq<(i32, i32)>
    decreases i,
{
    if i <= 0 {
        Seq::empty()
    } else {
        grid_row(x0, y, i - 1).push(((x0 + 14 * (i - 1)) as i32, y as i32))
    }
}

/// How many grid lines fit from `c − half` to `c + half`, every 14.
pub open spec fn grid_count(half: int) -> int {
    if half >= 0 { (2 * half) / 14 + 1 } else { 0 }
}

/// The first `j` rows of the grid around `(cx, cy)`, top to bottom.
pub open spec fn grid_rows(cx: int, cy: int, hw: int, hh: int, j: int) -> Seq<(i32, i32)>
    decreases j,
{
    if j <= 0 {
        Seq::empty()
    } else {
        grid_rows(cx, cy, hw, hh, j - 1) + grid_row(cx - hw, cy - hh + 14 * (j - 1), grid_count(hw))
    }
}

/// The scan grid: from `(cx − hw, cy − hh)` to `(cx + hw, cy + hh)`, every
/// 14 pixels, row by row.
pub open spec fn scan_grid_spec(cx: int, cy: int, hw: int, hh: int) -> Seq<(i32, i32)> {
    grid_rows(cx, cy, hw, hh, grid_count(hh))
}

proof fn lemma_grid_step(c: int, half: int, k: int)
    requires
        0 <= k,
    ensures
        (c - half + 14 * k <= c + half) == (k < grid_count(half)),
{
    if half >= 0 {
        assert((14 * k <= 2 * half) == (k <= (2 * half) / 14)) by (nonlinear_arith)
            requires
                half >= 0,
                k >= 0,
        ;
    }
}

/// The points of the scan grid.
pub fn scan_grid(cx: i32, cy: i32, hw: i32, hh: i32) -> (v: Vec<(i32, i32)>)
    requires
        i32::MIN <= cx - hw <= i32::MAX,
        i32::MIN <= cx + hw,
        cx + hw + 14 <= i32::MAX,
        i32::MIN <= cy - hh <= i32::MAX,
        i32::MIN <= cy + hh,
        cy + hh + 14 <= i32::MAX,
    ensures
        v@ == scan_grid_spec(cx as int, cy as int, hw as int, hh as int),
{
    let mut v: Vec<(i32, i32)> = Vec::new();
    let ghost nx = grid_count(hw as int);
    let mut y = cy - hh;
    let ghost mut j: int = 0;
    while y <= cy + hh
        invariant
            i32::MIN <= cx - hw <= i32::MAX,
            i32::MIN <= cx + hw,
            cx + hw + 14 <= i32::MAX,
            i32::MIN <= cy + hh,
            cy + hh + 14 <= i32::MAX,
            nx == grid_count(hw as int),
            j >= 0,
            y == cy - hh + 14 * j,
            j <= grid_count(hh as int),
            v@ == grid_rows(cx as int, cy as int, hw as int, hh as int, j),
        decreases cy + hh + 14 - y,
    {
        proof {
            lemma_grid_step(cy as int, hh as int, j);
        }
        let mut x = cx - hw;
        let ghost mut i: int = 0;
        let ghost base = v@;
        while x <= cx + hw
            invariant
                i32::MIN <= cx - hw <= i32::MAX,
                i32::MIN <= cx + hw,
                cx + hw + 14 <= i32::MAX,
                nx == grid_count(hw as int),
                i >= 0,
                x == cx - hw + 14 * i,
                i <= nx,
                v@ == base + grid_row(cx - hw, y as int, i),
            decreases cx + hw + 14 - x,
        {
            proof {
                lemma_grid_step(cx as int, hw as int, i);
            }
            v.push((x, y));
            proof {
                assert(v@ =~= base + grid_row(cx - hw, y as int, i + 1));
                i = i + 1;
            }
            x = x + 14;
        }
        proof {
            lemma_grid_step(cx as int, hw as int, i);
            assert(i == nx);
            assert(v@ =~= grid_rows(cx as int, cy as int, hw as int, hh as int, j + 1));
            j = j + 1;
        }
        y = y + 14;
    }
    proof {
        lemma_grid_step(cy as int, hh as int, j);
    }
    v
}

/// The 12×12 patch captured around a grid point.
pub fn scan_patch(p: (i32, i32)) -> (g: Region)
    requires
        i32::MIN <= p.0 - 6,
        p.0 + 6 <= i32::MAX,
        i32::MIN <= p.1 - 6,
        p.1 + 6 <= i32::MAX,
    ensures
        g == (Region { x1: (p.0 - 6) as i32, y1: (p.1 - 6) as i32, x2: (p.0 + 6) as i32, y2: (p.1 + 6) as i32 }),
{
    Region { x1: p.0 - 6, y1: p.1 - 6, x2: p.0 + 6, y2: p.1 + 6 }
}

/// Patch `a` is busier than patch `b` (equal sizes).
pub open spec fn busier(a: Seq<u8>, b: Seq<u8>) -> bool {
    a.len() > 0 && !variances_combo(b, a, 1, 1, 0)
}

/// Among the first `k` patches, the first busiest one whose variance
/// reaches `min_var`.
pub open spec fn busiest_upto(patches: Seq<Seq<u8>>, min_var: int, k: int) -> Option<int>
    decreases k,
{
    if k <= 0 {
        None
    } else {
        let prev = busiest_upto(patches, min_var, k - 1);
        let i = k - 1;
        if variance_at_least(patches[i], min_var) {
            match prev {
                Some(b) => if busier(patches[i], patches[b]) { Some(i) } else { Some(b) },
                None => Some(i),
            }
        } else {
            prev
        }
    }
}

pub open spec fn patch_views(patches: Seq<GrayMatrix>) -> Seq<Seq<u8>> {
    patches.map_values(|p: GrayMatrix| p.data@)
}

/// The grid point whose patch is busiest, among those whose variance is
/// at least `min_var`; `patches[i]` captures the 12×12 patch around
/// `points[i]`, all of one size.
pub fn busiest_patch(points: &Vec<(i32, i32)>, patches: &Vec<GrayMatrix>, min_var: u32) -> (p: Option<(i32, i32)>)
    requires
        points@.len() == patches@.len(),
        forall|i: int, j: int| 0 <= i < patches@.len() && 0 <= j < patches@.len()
            ==> (#[trigger] patches@[i]).data@.len() == (#[trigger] patches@[j]).data@.len(),
    ensures
        p == (match busiest_upto(patch_views(patches@), min_var as int, patches@.len() as int) {
            Some(i) => Some(points@[i]),
            None => None,
        }),
{
    let ghost views = patch_views(patches@);
    let mut best: Option<(usize, PixelStats)> = None;
    let mut k: usize = 0;
    while k < patches.len()
        invariant
            k <= patches.len(),
            points@.len() == patches@.len(),
            views == patch_views(patches@),
            forall|i: int, j: int| 0 <= i < patches@.len() && 0 <= j < patches@.len()
                ==> (#[trigger] patches@[i]).data@.len() == (#[trigger] patches@[j]).data@.len(),
            match busiest_upto(views, min_var as int, k as int) {
                Some(b) => best matches Some(e) && e.0 == b && b < k && e.1.describes(views[b]) && e.1.wf(),
                None => best is None,
            },
        decreases patches.len() - k,
    {
        let st = PixelStats::of_all(&patches[k].data);
        assert(views[k as int] == patches@[k as int].data@);
        if st.variance_at_least(min_var) {
            match best {
                Some((b, bs)) => {
                    assert(views[b as int] == patches@[b as int].data@);
                    if st.n > 0 && !bs.variances_combo_at_least(&st, 1, 1, 0) {
                        best = Some((k, st));
                    }
                },
                None => {
                    best = Some((k, st));
                },
            }
        }
        k += 1;
    }
    match best {
        Some((b, _)) => Some(points[b]),
        None => None,
    }
}

} // verus!
