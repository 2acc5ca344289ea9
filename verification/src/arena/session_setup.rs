//! What the one-shot Arena session setup did, and the geometry it reads.
use vstd::prelude::*;
use crate::adapter::{Region, div_toward_zero};
use crate::text::{has_substr, lower_text, str_contains, to_lowercase};
use crate::arena::layout::max_i;
use crate::matrix::{GrayMatrix, lemma_row_in_bounds};
use crate::stats::{
    PixelStats, lemma_sums_bounded, luma_sq_sum, luma_sum, mean_at_least, spread_of, variance_above,
    variance_at_least,
};

verus! {

/// Which setup steps took effect.
#[derive(Clone, Copy, Debug)]
pub struct SetupReport {
    pub browser_focused: bool,
    pub navigated_to_arena: bool,
    pub reused_existing_tab: bool,
    pub navigated_to_home: bool,
    pub forced_fullscreen: bool,
    pub sidebar_collapsed: bool,
    pub clicked_new_chat: bool,
    pub forced_direct_mode: bool,
    pub model_selected: bool,
}

impl Default for SetupReport {
    /// Nothing done yet.
    fn default() -> (r: Self)
        ensures
            !r.browser_focused && !r.navigated_to_arena && !r.reused_existing_tab && !r.navigated_to_home
                && !r.forced_fullscreen && !r.sidebar_collapsed && !r.clicked_new_chat && !r.forced_direct_mode
                && !r.model_selected,
    {
        SetupReport {
            browser_focused: false,
            navigated_to_arena: false,
            reused_existing_tab: false,
            navigated_to_home: false,
            forced_fullscreen: false,
            sidebar_collapsed: false,
            clicked_new_chat: false,
            forced_direct_mode: false,
            model_selected: false,
        }
    }
}

/// The search row at the top of an open model dropdown `menu`: inset 30
/// pixels left and right, from 8 to 48 pixels below the menu's top.
pub fn model_search_input_region(menu: Region) -> (r: Region)
    requires
        menu.x1 + 30 <= i32::MAX,
        menu.y1 + 48 <= i32::MAX,
        menu.x2 - 30 >= i32::MIN,
    ensures
        r == (Region { x1: (menu.x1 + 30) as i32, y1: (menu.y1 + 8) as i32, x2: (menu.x2 - 30) as i32, y2: (menu.y1 + 48) as i32 }),
{
    Region { x1: menu.x1 + 30, y1: menu.y1 + 8, x2: menu.x2 - 30, y2: menu.y1 + 48 }
}


// ── Page titles ─────────────────────────────────────────────────────────────

/// Whether a lowercased title is one of Arena's marketing pages.
pub open spec fn marketing_title(l: Seq<char>) -> bool {
    has_substr(l, "leaderboard"@) || has_substr(l, "ranking"@) || has_substr(l, "the official"@)
        || has_substr(l, "llm leaderboard"@)
}

/// Whether a tab title belongs to Arena's leaderboard / marketing pages
/// rather than the chat app (the title is compared lowercased).
pub fn is_marketing_title(title: &str) -> (b: bool)
    ensures
        b == marketing_title(lower_text(title@)),
{
    let lower = to_lowercase(title);
    let t = lower.as_str();
    str_contains(t, "leaderboard") || str_contains(t, "ranking") || str_contains(t, "the official")
        || str_contains(t, "llm leaderboard")
}

// ── Merging nearby row peaks ────────────────────────────────────────────────

pub open spec fn seq_sum(g: Seq<i32>) -> int
    decreases g.len(),
{
    if g.len() == 0 {
        0
    } else {
        seq_sum(g.drop_last()) + g.last()
    }
}

/// Every running sum of `g`, left to right, fits in `i32`.
pub open spec fn sums_fit(g: Seq<i32>) -> bool {
    forall|k: int| 0 <= k <= g.len() ==> i32::MIN <= #[trigger] seq_sum(g.take(k)) <= i32::MAX
}

/// The integer mean of a group, as `sum / len` computes it.
pub open spec fn group_mean(g: Seq<i32>) -> int {
    div_toward_zero(seq_sum(g), g.len() as int)
}

/// After the first `n ≥ 1` peaks: the means of the closed groups, the open
/// group, and whether all arithmetic so far fits in `i32`. A peak joins the
/// open group when it lies less than `gap` after the group's last peak.
pub open spec fn cluster_state(peaks: Seq<i32>, gap: int, n: int) -> (Seq<int>, Seq<i32>, bool)
    decreases n,
{
    if n <= 1 {
        (Seq::empty(), seq![peaks[0]], true)
    } else {
        let st = cluster_state(peaks, gap, n - 1);
        let p = peaks[n - 1];
        let fits = st.2 && i32::MIN <= p - st.1.last() <= i32::MAX;
        if p - st.1.last() < gap {
            (st.0, st.1.push(p), fits)
        } else {
            (st.0.push(group_mean(st.1)), seq![p], fits && sums_fit(st.1))
        }
    }
}

/// The computation stays within `i32` (sums of groups, gaps between peaks).
pub open spec fn clusters_fit(peaks: Seq<i32>, gap: int) -> bool {
    peaks.len() == 0 || ({
        let st = cluster_state(peaks, gap, peaks.len() as int);
        st.2 && sums_fit(st.1)
    })
}

/// The mean of each run of peaks whose consecutive gaps are below `gap`.
pub open spec fn clustered(peaks: Seq<i32>, gap: int) -> Seq<int> {
    if peaks.len() == 0 {
        Seq::empty()
    } else {
        let st = cluster_state(peaks, gap, peaks.len() as int);
        st.0.push(group_mean(st.1))
    }
}

proof fn lemma_cluster_state_fits(peaks: Seq<i32>, gap: int, n: int, m: int)
    requires
        1 <= n <= m <= peaks.len(),
        cluster_state(peaks, gap, m).2,
    ensures
        cluster_state(peaks, gap, n).2,
    decreases m - n,
{
    if n < m {
        lemma_cluster_state_fits(peaks, gap, n, m - 1);
    }
}

proof fn lemma_cluster_state_group(peaks: Seq<i32>, gap: int, n: int)
    requires
        1 <= n <= peaks.len(),
    ensures
        cluster_state(peaks, gap, n).1.len() >= 1,
        cluster_state(peaks, gap, n).1.len() <= n,
    decreases n,
{
    if n > 1 {
        lemma_cluster_state_group(peaks, gap, n - 1);
    }
}

fn group_mean_exec(g: &Vec<i32>) -> (m: i32)
    requires
        g.len() >= 1,
        g.len() <= i32::MAX,
        sums_fit(g@),
    ensures
        m == group_mean(g@),
{
    let mut s: i32 = 0;
    let mut i: usize = 0;
    while i < g.len()
        invariant
            i <= g.len(),
            sums_fit(g@),
            s == seq_sum(g@.take(i as int)),
        decreases g.len() - i,
    {
        assert(g@.take(i + 1).drop_last() =~= g@.take(i as int));
        assert(i32::MIN <= seq_sum(g@.take(i + 1)) <= i32::MAX);
        s = s + g[i];
        i += 1;
    }
    assert(g@.take(g.len() as int) =~= g@);
    let n = g.len() as i64;
    let s64 = s as i64;
    let q = if s64 >= 0 { s64 / n } else { -((-s64) / n) };
    assert(-(i32::MAX as int) - 1 <= q <= i32::MAX) by {
        if s64 >= 0 {
            vstd::arithmetic::div_mod::lemma_div_is_ordered_by_denominator(s64 as int, 1, n as int);
        } else {
            vstd::arithmetic::div_mod::lemma_div_is_ordered_by_denominator(-s64 as int, 1, n as int);
        }
    }
    q as i32
}

/// Merge runs of close peaks (consecutive gaps below `min_gap`) into their
/// integer mean.
pub fn cluster_close_peaks(peaks: &[i32], min_gap: i32) -> (r: Vec<i32>)
    requires
        peaks@.len() <= i32::MAX,
        clusters_fit(peaks@, min_gap as int),
    ensures
        r@.len() == clustered(peaks@, min_gap as int).len(),
        forall|i: int| 0 <= i < r@.len() ==> r@[i] == #[trigger] clustered(peaks@, min_gap as int)[i],
{
    if peaks.len() == 0 {
        return Vec::new();
    }
    let ghost gap = min_gap as int;
    let mut out: Vec<i32> = Vec::new();
    let mut group: Vec<i32> = Vec::new();
    group.push(peaks[0]);
    let mut i: usize = 1;
    proof {
        assert(group@ =~= seq![peaks@[0]]);
    }
    while i < peaks.len()
        invariant
            1 <= i <= peaks@.len(),
            peaks@.len() <= i32::MAX,
            gap == min_gap as int,
            clusters_fit(peaks@, gap),
            group@ == cluster_state(peaks@, gap, i as int).1,
            out@.len() == cluster_state(peaks@, gap, i as int).0.len(),
            forall|k: int| 0 <= k < out@.len() ==> out@[k] == #[trigger] cluster_state(peaks@, gap, i as int).0[k],
        decreases peaks.len() - i,
    {
        proof {
            lemma_cluster_state_fits(peaks@, gap, i + 1, peaks@.len() as int);
            lemma_cluster_state_group(peaks@, gap, i as int);
            lemma_cluster_state_group(peaks@, gap, i + 1);
            if i + 1 < peaks@.len() {
                lemma_cluster_state_group(peaks@, gap, i + 1);
            }
        }
        let p = peaks[i];
        let last = group[group.len() - 1];
        if p - last < min_gap {
            group.push(p);
        } else {
            proof {
                if i + 1 < peaks@.len() {
                    lemma_cluster_state_fits(peaks@, gap, i + 1, peaks@.len() as int);
                }
            }
            let m = group_mean_exec(&group);
            out.push(m);
            group = Vec::new();
            group.push(p);
            proof {
                assert(group@ =~= seq![p]);
            }
        }
        i += 1;
    }
    proof {
        lemma_cluster_state_group(peaks@, gap, peaks@.len() as int);
    }
    let m = group_mean_exec(&group);
    out.push(m);
    out
}

// ── Rows of an open dropdown ────────────────────────────────────────────────

/// w·Σv² − (Σv)² of row `y`: w² times the row's variance.
pub open spec fn row_spread(cap: &GrayMatrix, y: int) -> int {
    spread_of(cap.width as int, luma_sum(cap.row(y)), luma_sq_sum(cap.row(y)))
}

/// The largest row spread among the first `m` rows, and 0.
pub open spec fn max_row_spread(cap: &GrayMatrix, m: int) -> int
    decreases m,
{
    if m <= 0 {
        0
    } else {
        max_i(max_row_spread(cap, m - 1), row_spread(cap, m - 1))
    }
}

/// Row `y` carries text: its variance is at least 30 % of the largest row
/// variance `mx / w²`, and at least 8.
pub open spec fn row_hot(cap: &GrayMatrix, y: int, mx: int) -> bool {
    10 * row_spread(cap, y) >= 3 * mx && row_spread(cap, y) >= 8 * (cap.width * cap.width)
}

pub open spec fn hot_rows(cap: &GrayMatrix) -> Seq<bool> {
    let mx = max_row_spread(cap, cap.height as int);
    Seq::new(cap.height as nat, |y: int| row_hot(cap, y, mx))
}

/// After the first `y` rows: the bands closed so far (first and last row)
/// and the first row of the band still open. A band closes at the first
/// cold row, and is kept when it started at least 6 rows before that.
pub open spec fn band_scan(hot: Seq<bool>, y: int) -> (Seq<(int, int)>, Option<int>)
    decreases y,
{
    if y <= 0 {
        (Seq::empty(), None)
    } else {
        let prev = band_scan(hot, y - 1);
        let t = y - 1;
        if hot[t] {
            (prev.0, match prev.1 {
                Some(s) => Some(s),
                None => Some(t),
            })
        } else {
            match prev.1 {
                Some(s) => (if t - s >= 6 { prev.0.push((s, t - 1)) } else { prev.0 }, None),
                None => (prev.0, None),
            }
        }
    }
}

/// The bands of hot rows; a band still open at the bottom is kept when its
/// last row is at least 6 rows after its first.
pub open spec fn bands_of(hot: Seq<bool>) -> Seq<(int, int)> {
    let st = band_scan(hot, hot.len() as int);
    match st.1 {
        Some(s) => if (hot.len() - 1) - s >= 6 { st.0.push((s, hot.len() - 1)) } else { st.0 },
        None => st.0,
    }
}

/// The screen row in the middle of each band.
pub open spec fn band_centers(bands: Seq<(int, int)>, y1: int) -> Seq<i32> {
    bands.map_values(|b: (int, int)| (y1 + (b.0 + b.1) / 2) as i32)
}

/// The band centres of a capture of `region`; none when the region or the
/// capture is too small, or every row is nearly flat (largest variance
/// under 5).
pub open spec fn raw_row_peaks(region: Region, cap: &GrayMatrix) -> Seq<i32> {
    let w = cap.width as int;
    if region.x2 - region.x1 < 5 || region.y2 - region.y1 < 8 || cap.height < 8 || cap.width < 5
        || max_row_spread(cap, cap.height as int) < 5 * (w * w) {
        Seq::empty()
    } else {
        band_centers(bands_of(hot_rows(cap)), region.y1 as int)
    }
}

proof fn lemma_row_spread_bounded(cap: &GrayMatrix, y: int)
    requires
        cap.wf(),
        cap.width <= i32::MAX,
        0 <= y < cap.height,
    ensures
        -0x4000_0000_0000_0000_0000 <= row_spread(cap, y) <= 0x4000_0000_0000_0000_0000,
{
    let r = cap.row(y);
    let w = cap.width as int;
    lemma_row_in_bounds(y, w, cap.height as int);
    assert(r.len() == w);
    lemma_sums_bounded(r, 0);
    let s1 = luma_sum(r);
    let s2 = luma_sq_sum(r);
    assert(w * s2 <= 0x4000_0000_0000_0000_0000) by (nonlinear_arith)
        requires
            0 <= w <= 0x7fff_ffff,
            0 <= s2 <= 65025 * w,
    ;
    assert(s1 * s1 <= 0x4000_0000_0000_0000_0000) by (nonlinear_arith)
        requires
            0 <= w <= 0x7fff_ffff,
            0 <= s1 <= 255 * w,
    ;
    assert(0 <= w * s2) by (nonlinear_arith)
        requires
            0 <= w,
            0 <= s2,
    ;
    assert(0 <= s1 * s1) by (nonlinear_arith);
}

proof fn lemma_max_row_spread_bounded(cap: &GrayMatrix, m: int)
    requires
        cap.wf(),
        cap.width <= i32::MAX,
        m <= cap.height,
    ensures
        0 <= max_row_spread(cap, m) <= 0x4000_0000_0000_0000_0000,
    decreases m,
{
    if m > 0 {
        lemma_max_row_spread_bounded(cap, m - 1);
        lemma_row_spread_bounded(cap, m - 1);
    }
}

/// The spread of row `y` of a well-formed capture.
fn row_spread_exec(cap: &GrayMatrix, y: usize) -> (sp: i128)
    requires
        cap.wf(),
        cap.width <= i32::MAX,
        y < cap.height,
    ensures
        sp == row_spread(cap, y as int),
{
    let w = cap.width;
    let n = cap.data.len();
    proof {
        lemma_row_in_bounds(y as int, w as int, cap.height as int);
        lemma_row_spread_bounded(cap, y as int);
    }
    let lo = y * w;
    let st = PixelStats::of_range(&cap.data, lo, lo + w);
    proof {
        lemma_sums_bounded(cap.row(y as int), 0);
        let s1 = st.sum as int;
        let s2 = st.sq_sum as int;
        assert((w as int) * s2 <= 0x4000_0000_0000_0000_0000) by (nonlinear_arith)
            requires
                0 <= w <= 0x7fff_ffff,
                0 <= s2 <= 65025 * w,
        ;
        assert(s1 * s1 <= 0x4000_0000_0000_0000_0000) by (nonlinear_arith)
            requires
                0 <= w <= 0x7fff_ffff,
                0 <= s1 <= 255 * w,
        ;
        assert(0 <= (w as int) * s2) by (nonlinear_arith)
            requires
                0 <= w,
                0 <= s2,
        ;
        assert(0 <= s1 * s1) by (nonlinear_arith);
    }
    let a = (w as i128) * (st.sq_sum as i128);
    let b = (st.sum as i128) * (st.sum as i128);
    a - b
}

/// The screen rows of the entries of an open dropdown, from a capture of
/// `region`: rows of high variance (text, icons) form bands; each band's
/// middle row is a peak, and peaks closer than 28 rows (a title and its
/// subtitle) merge into their mean.
pub fn find_row_centers(region: Region, cap: &GrayMatrix) -> (r: Vec<i32>)
    requires
        cap.wf(),
        cap.width <= i32::MAX,
        cap.height <= i32::MAX,
        i32::MIN <= region.x2 - region.x1 <= i32::MAX,
        i32::MIN <= region.y2 - region.y1 <= i32::MAX,
        region.y1 + cap.height <= i32::MAX,
        clusters_fit(raw_row_peaks(region, cap), 28),
    ensures
        r@.len() == clustered(raw_row_peaks(region, cap), 28).len(),
        forall|i: int| 0 <= i < r@.len() ==> r@[i] == #[trigger] clustered(raw_row_peaks(region, cap), 28)[i],
{
    if region.x2 - region.x1 < 5 || region.y2 - region.y1 < 8 {
        let empty: Vec<i32> = Vec::new();
        assert(empty@ =~= raw_row_peaks(region, cap));
        return cluster_close_peaks(&empty, 28);
    }
    let w = cap.width;
    let h = cap.height;
    if h < 8 || w < 5 {
        let empty: Vec<i32> = Vec::new();
        assert(empty@ =~= raw_row_peaks(region, cap));
        return cluster_close_peaks(&empty, 28);
    }
    let mut prof: Vec<i128> = Vec::new();
    let mut mx: i128 = 0;
    let mut y: usize = 0;
    while y < h
        invariant
            cap.wf(),
            cap.width <= i32::MAX,
            w == cap.width,
            h == cap.height,
            y <= h,
            prof@.len() == y,
            forall|i: int| 0 <= i < y ==> prof@[i] == #[trigger] row_spread(cap, i),
            mx == max_row_spread(cap, y as int),
        decreases h - y,
    {
        let sp = row_spread_exec(cap, y);
        prof.push(sp);
        if sp > mx {
            mx = sp;
        }
        y += 1;
    }
    proof {
        lemma_max_row_spread_bounded(cap, h as int);
        assert(w * w <= 0x4000_0000_0000_0000) by (nonlinear_arith)
            requires
                w <= 0x7fff_ffff,
        ;
    }
    let ww = (w as i128) * (w as i128);
    if mx < 5 * ww {
        let empty: Vec<i32> = Vec::new();
        assert(empty@ =~= raw_row_peaks(region, cap));
        return cluster_close_peaks(&empty, 28);
    }
    let ghost hot = hot_rows(cap);
    let mut raw: Vec<i32> = Vec::new();
    let mut start: Option<usize> = None;
    let mut y: usize = 0;
    while y < h
        invariant
            cap.wf(),
            cap.width <= i32::MAX,
            w == cap.width,
            h == cap.height,
            h <= i32::MAX,
            region.y1 + h <= i32::MAX,
            y <= h,
            prof@.len() == h,
            forall|i: int| 0 <= i < h ==> prof@[i] == #[trigger] row_spread(cap, i),
            mx == max_row_spread(cap, h as int),
            0 <= mx <= 0x4000_0000_0000_0000_0000,
            ww == w * w,
            hot == hot_rows(cap),
            raw@ == band_centers(band_scan(hot, y as int).0, region.y1 as int),
            start.is_some() == band_scan(hot, y as int).1.is_some(),
            start.is_some() ==> start.unwrap() as int == band_scan(hot, y as int).1.unwrap(),
            start.is_some() ==> start.unwrap() < y,
            raw@.len() + (if start.is_some() { 1int } else { 0int }) <= y,
        decreases h - y,
    {
        let p = prof[y];
        proof {
            lemma_row_spread_bounded(cap, y as int);
            assert(ww <= 0x4000_0000_0000_0000) by (nonlinear_arith)
                requires
                    ww == w * w,
                    w <= 0x7fff_ffff,
            ;
        }
        let is_hot = 10 * p >= 3 * mx && p >= 8 * ww;
        assert(hot[y as int] == row_hot(cap, y as int, mx as int));
        assert(is_hot == hot[y as int]);
        let ghost prev = band_scan(hot, y as int);
        if is_hot {
            if start.is_none() {
                start = Some(y);
            }
        } else {
            match start {
                Some(s) => {
                    if y - s >= 6 {
                        let c = region.y1 + ((s + (y - 1)) / 2) as i32;
                        raw.push(c);
                        proof {
                            assert(band_centers(prev.0.push((s as int, y - 1)), region.y1 as int)
                                =~= band_centers(prev.0, region.y1 as int).push(c));
                        }
                    }
                    start = None;
                },
                None => {},
            }
        }
        y += 1;
    }
    let ghost fin = band_scan(hot, h as int);
    if let Some(s) = start {
        let last = h - 1;
        if last - s >= 6 {
            let c = region.y1 + ((s + last) / 2) as i32;
            raw.push(c);
            proof {
                assert(band_centers(fin.0.push((s as int, last as int)), region.y1 as int)
                    =~= band_centers(fin.0, region.y1 as int).push(c));
            }
        }
    }
    assert(raw@ =~= raw_row_peaks(region, cap));
    cluster_close_peaks(&raw, 28)
}

/// The search row of an open model dropdown: its placeholder and icon give
/// a variance from 22 to 150 (a closed row is flatter, chat text noisier),
/// or the row is bright (mean luma at least 50).
pub open spec fn search_row_open_spec(search: Seq<u8>) -> bool {
    (variance_at_least(search, 22) && !variance_above(search, 150)) || mean_at_least(search, 50)
}

pub fn dropdown_search_row_open(search: &GrayMatrix) -> (open: bool)
    ensures
        open == search_row_open_spec(search.data@),
{
    let st = PixelStats::of_all(&search.data);
    (st.variance_at_least(22) && !st.variance_above(150)) || st.mean_at_least(50)
}

} // verus!
