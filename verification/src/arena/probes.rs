//! Pixel probes the Arena adapter uses to tell what is on screen: the
//! response chooser's button row, the text-mode stop square, a generated
//! preview in the code panel, the download button's state and open menus.
//! Each takes the capture of the region it names.
use vstd::prelude::*;
use crate::adapter::{Region, WebUiState, center_spec, div_toward_zero};
use crate::arena::detect::{ButtonCandidate, UrlClass, arena_find_close_button_pixel, close_grid_hit, lemma_close_hit_inside};
use crate::arena::layout::{max_i, min_i, max32, min32, skip_point_spec, response_choice_skip_expected_point};
use crate::arena::layout::thresholded_view;
use crate::arena::regions::{ArenaSurface, Regions, center};
use crate::matrix::{GrayMatrix, lemma_row_in_bounds};
use crate::stats::{
    PixelStats, count_at_least, count_at_least_in, luma_sum, mean_at_least, mean_above, mean_ge,
    share_at_least, share_reaches, variance_above, variance_at_least,
};

verus! {

/// The box reaching `hw` and `hh` from `c`, clipped below by `lo` and
/// above by `hi`.
pub open spec fn clipped_box(c: (int, int), hw: int, hh: int, lo: (int, int), hi: (int, int)) -> Region {
    Region {
        x1: max_i(c.0 - hw, lo.0) as i32,
        y1: max_i(c.1 - hh, lo.1) as i32,
        x2: min_i(c.0 + hw, hi.0) as i32,
        y2: min_i(c.1 + hh, hi.1) as i32,
    }
}

pub open spec fn as_point(p: (i32, i32)) -> (int, int) {
    (p.0 as int, p.1 as int)
}

/// The four sides of the box stay within `i32`.
pub open spec fn box_fits(c: (int, int), hw: int, hh: int) -> bool {
    &&& 0 <= hw
    &&& 0 <= hh
    &&& i32::MIN <= c.0 - hw
    &&& c.0 + hw <= i32::MAX
    &&& i32::MIN <= c.1 - hh
    &&& c.1 + hh <= i32::MAX
}

fn clip_box(c: (i32, i32), hw: i32, hh: i32, lo: (i32, i32), hi: (i32, i32)) -> (g: Region)
    requires
        box_fits((c.0 as int, c.1 as int), hw as int, hh as int),
    ensures
        g == clipped_box((c.0 as int, c.1 as int), hw as int, hh as int, (lo.0 as int, lo.1 as int), (hi.0 as int, hi.1 as int)),
{
    Region {
        x1: max32(c.0 - hw, lo.0),
        y1: max32(c.1 - hh, lo.1),
        x2: min32(c.0 + hw, hi.0),
        y2: min32(c.1 + hh, hi.1),
    }
}

// ── Response chooser ────────────────────────────────────────────────────────

/// The band around the expected Skip button: 120 pixels either side, 35
/// above and below, kept inside the conversation's top and the screen.
pub open spec fn choice_band_spec(r: Regions, url: UrlClass) -> Region {
    clipped_box(skip_point_spec(r, url), 120, 35, (0, r.conversation.y1 as int), (r.screen_width as int, r.screen_height as int))
}

pub fn choice_band(r: &Regions, url: UrlClass) -> (g: Region)
    requires
        i32::MIN <= r.input_box.x1 + r.input_box.x2 <= i32::MAX,
        r.input_box.y1 - 56 >= i32::MIN,
        r.input_focus_point_inchat.y1 - 56 >= i32::MIN,
        box_fits(skip_point_spec(*r, url), 120, 35),
    ensures
        g == choice_band_spec(*r, url),
{
    let p = response_choice_skip_expected_point(r, url);
    clip_box(p, 120, 35, (0, r.conversation.y1), (r.screen_width, r.screen_height))
}

/// Among the first `m` rows, those with at least 90 pixels of luma 74 or
/// more: the long bright edges of the chooser's buttons.
pub open spec fn long_edge_rows(cap: &GrayMatrix, m: int) -> int
    decreases m,
{
    if m <= 0 {
        0
    } else {
        long_edge_rows(cap, m - 1) + if count_at_least(cap.row(m - 1), 74) >= 90 { 1int } else { 0int }
    }
}

/// The chooser's button row shows: at least two long bright edges, a
/// variance of at least 45 and at least 0.6 % of pixels of luma 120 or more.
pub open spec fn choice_row_visible_spec(cap: &GrayMatrix) -> bool {
    &&& cap.width > 0
    &&& cap.height > 0
    &&& long_edge_rows(cap, cap.height as int) >= 2
    &&& variance_at_least(cap.data@, 45)
    &&& share_at_least(cap.data@, 120, 6, 1000)
}

pub fn choice_row_visible(cap: &GrayMatrix) -> (visible: bool)
    requires
        cap.wf(),
    ensures
        visible == choice_row_visible_spec(cap),
{
    let w = cap.width;
    let h = cap.height;
    if w == 0 || h == 0 {
        return false;
    }
    let n = cap.data.len();
    let mut rows: usize = 0;
    let mut y: usize = 0;
    while y < h
        invariant
            cap.wf(),
            n == cap.data@.len(),
            w == cap.width,
            h == cap.height,
            y <= h,
            rows <= y,
            rows == long_edge_rows(cap, y as int),
        decreases h - y,
    {
        proof {
            lemma_row_in_bounds(y as int, w as int, h as int);
        }
        let lo = y * w;
        let c = count_at_least_in(&cap.data, lo, lo + w, 74);
        if c >= 90 {
            rows += 1;
        }
        y += 1;
    }
    let st = PixelStats::of_all(&cap.data);
    let bright = count_at_least_in(&cap.data, 0, cap.data.len(), 120);
    proof {
        assert(cap.data@.subrange(0, cap.data@.len() as int) =~= cap.data@);
    }
    rows >= 2 && st.variance_at_least(45) && share_reaches(bright, st.n, 6, 1000)
}

// ── Text-mode stop square ───────────────────────────────────────────────────

/// The core of the text-mode send/stop icon: 14 pixels around the centre
/// of the in-chat send button, inside the screen.
pub open spec fn text_stop_core_spec(r: Regions) -> Region {
    clipped_box(as_point(center_spec(r.send_or_stop_inchat)), 14, 14, (0, 0), (r.screen_width as int, r.screen_height as int))
}

pub fn text_stop_core(r: &Regions) -> (g: Region)
    requires
        i32::MIN <= r.send_or_stop_inchat.x1 + r.send_or_stop_inchat.x2 <= i32::MAX,
        i32::MIN <= r.send_or_stop_inchat.y1 + r.send_or_stop_inchat.y2 <= i32::MAX,
        box_fits(as_point(center_spec(r.send_or_stop_inchat)), 14, 14),
    ensures
        g == text_stop_core_spec(*r),
{
    let c = center(r.send_or_stop_inchat);
    clip_box(c, 14, 14, (0, 0), (r.screen_width, r.screen_height))
}

/// The stop icon is a filled square (the send icon a thin arrow): at least
/// 18 % of the core is of luma 190 or more.
pub fn text_stop_visible(cap: &GrayMatrix) -> (visible: bool)
    ensures
        visible == share_at_least(cap.data@, 190, 18, 100),
{
    let bright = count_at_least_in(&cap.data, 0, cap.data.len(), 190);
    proof {
        assert(cap.data@.subrange(0, cap.data@.len() as int) =~= cap.data@);
    }
    share_reaches(bright, cap.data.len(), 18, 100)
}

// ── Code panel ──────────────────────────────────────────────────────────────

/// The code panel below its 80-pixel header, down to the conversation's
/// bottom: where a generated preview renders.
pub open spec fn preview_body_spec(r: Regions) -> Region {
    Region {
        x1: r.code_panel.x1,
        y1: (r.code_panel.y1 + 80) as i32,
        x2: r.code_panel.x2,
        y2: r.conversation.y2,
    }
}

pub fn preview_body(r: &Regions) -> (g: Region)
    requires
        r.code_panel.y1 + 80 <= i32::MAX,
    ensures
        g == preview_body_spec(*r),
{
    Region { x1: r.code_panel.x1, y1: r.code_panel.y1 + 80, x2: r.code_panel.x2, y2: r.conversation.y2 }
}

/// A rendered preview: mean luma above 60 and variance above 100 (dark
/// chat text alone stays below).
pub open spec fn visual_panel_spec(body: Seq<u8>) -> bool {
    mean_above(body, 60) && variance_above(body, 100)
}

pub fn visual_panel(body: &GrayMatrix) -> (b: bool)
    ensures
        b == visual_panel_spec(body.data@),
{
    let st = PixelStats::of_all(&body.data);
    st.mean_above(60) && st.variance_above(100)
}

/// The code panel is open: one of its toggles or its download button
/// matched, or the panel body shows a rendered preview.
pub fn has_code_panel(template_hit: bool, body: &GrayMatrix) -> (b: bool)
    ensures
        b == (template_hit || visual_panel_spec(body.data@)),
{
    if template_hit {
        return true;
    }
    visual_panel(body)
}

// ── Download button ─────────────────────────────────────────────────────────

/// The code panel's toolbar, `depth` pixels tall, from the panel's left
/// edge to the screen's right edge.
pub open spec fn code_toolbar_spec(r: Regions, depth: int) -> Region {
    Region {
        x1: r.code_panel.x1,
        y1: r.code_panel.y1,
        x2: r.screen_width,
        y2: (r.code_panel.y1 + depth) as i32,
    }
}

/// The toolbar searched for the download template (95 pixels tall) and
/// the one scanned for a bright button (90 pixels tall).
pub fn download_toolbars(r: &Regions) -> (t: (Region, Region))
    requires
        r.code_panel.y1 + 95 <= i32::MAX,
    ensures
        t.0 == code_toolbar_spec(*r, 95),
        t.1 == code_toolbar_spec(*r, 90),
{
    (
        Region { x1: r.code_panel.x1, y1: r.code_panel.y1, x2: r.screen_width, y2: r.code_panel.y1 + 95 },
        Region { x1: r.code_panel.x1, y1: r.code_panel.y1, x2: r.screen_width, y2: r.code_panel.y1 + 90 },
    )
}

/// The button around a matched download icon: 60 pixels either side, 18
/// above and below, inside the screen.
pub open spec fn download_probe_spec(r: Regions, c: (int, int)) -> Region {
    clipped_box(c, 60, 18, (0, 0), (r.screen_width as int, r.screen_height as int))
}

pub fn download_probe(r: &Regions, c: (i32, i32)) -> (g: Region)
    requires
        box_fits((c.0 as int, c.1 as int), 60, 18),
    ensures
        g == download_probe_spec(*r, (c.0 as int, c.1 as int)),
{
    clip_box(c, 60, 18, (0, 0), (r.screen_width, r.screen_height))
}

/// The download button is active (bright) when its mean luma is at least
/// 185.
pub fn download_active(button: &GrayMatrix) -> (active: bool)
    ensures
        active == mean_at_least(button.data@, 185),
{
    PixelStats::of_all(&button.data).mean_at_least(185)
}

/// A bright toolbar button is an active download button when its mean
/// luma is at least 185.
pub fn candidate_active(c: &ButtonCandidate) -> (active: bool)
    ensures
        active == mean_ge(c.area as int, c.sum as int, 185),
{
    if c.area == 0 {
        false
    } else {
        proof {
            assert(c.area <= u64::MAX);
            assert(185 * c.area <= 185 * 0xffff_ffff_ffff_ffffu64) by (nonlinear_arith)
                requires
                    c.area <= 0xffff_ffff_ffff_ffffu64,
            ;
        }
        c.sum >= 185 * (c.area as u128)
    }
}

/// The download button's state: from the capture around a matched icon
/// if there is one, else from the bright toolbar button if one was found,
/// else unknown.
pub fn download_state(button: Option<&GrayMatrix>, candidate: Option<ButtonCandidate>) -> (s: Option<bool>)
    ensures
        s == (match button {
            Some(b) => Some(mean_at_least(b.data@, 185)),
            None => match candidate {
                Some(c) => Some(mean_ge(c.area as int, c.sum as int, 185)),
                None => None,
            },
        }),
{
    match button {
        Some(b) => Some(download_active(b)),
        None => match candidate {
            Some(c) => Some(candidate_active(&c)),
            None => None,
        },
    }
}

/// Where the download button's template is searched to click it, in
/// order, with thresholds in thousandths: its calibrated place, the code
/// panel's 55-pixel toolbar, and an 80-pixel band across to the screen's
/// right edge.
pub open spec fn download_search_spec(r: Regions) -> Seq<(Seq<char>, Region, u32)> {
    seq![
        ("expected"@, r.download_button, 720u32),
        ("toolbar"@, Region { x1: r.code_panel.x1, y1: r.code_panel.y1, x2: r.code_panel.x2, y2: (r.code_panel.y1 + 55) as i32 }, 700u32),
        ("top_band"@, code_toolbar_spec(r, 80), 680u32),
    ]
}

pub fn download_search_regions(r: &Regions) -> (g: Vec<(&'static str, Region, u32)>)
    requires
        r.code_panel.y1 + 80 <= i32::MAX,
    ensures
        thresholded_view(g@) == download_search_spec(*r),
{
    let cp = r.code_panel;
    let mut v: Vec<(&'static str, Region, u32)> = Vec::new();
    v.push(("expected", r.download_button, 720));
    v.push(("toolbar", Region { x1: cp.x1, y1: cp.y1, x2: cp.x2, y2: cp.y1 + 55 }, 700));
    v.push(("top_band", Region { x1: cp.x1, y1: cp.y1, x2: r.screen_width, y2: cp.y1 + 80 }, 680));
    proof {
        reveal_strlit("expected");
        reveal_strlit("toolbar");
        reveal_strlit("top_band");
        assert(thresholded_view(v@) =~= download_search_spec(*r));
    }
    v
}

/// Where to click Download: the template's match, else the bright toolbar
/// button when it is active; a dim button is not clicked.
pub open spec fn download_click_spec(template_hit: Option<(i32, i32)>, candidate: Option<ButtonCandidate>) -> Option<(i32, i32)> {
    match template_hit {
        Some(p) => Some(p),
        None => match candidate {
            Some(c) => if mean_ge(c.area as int, c.sum as int, 185) { Some(c.center) } else { None },
            None => None,
        },
    }
}

pub fn download_click_target(template_hit: Option<(i32, i32)>, candidate: Option<ButtonCandidate>) -> (t: Option<(i32, i32)>)
    ensures
        t == download_click_spec(template_hit, candidate),
{
    match template_hit {
        Some(p) => Some(p),
        None => match candidate {
            Some(c) => if candidate_active(&c) { Some(c.center) } else { None },
            None => None,
        },
    }
}

/// Artifacts are downloaded on the Code surface when the code panel shows
/// or the Download button is active; the Text surface saves its answer by
/// copying instead.
pub fn should_download(surface: ArenaSurface, panel_visible: bool, button: Option<bool>) -> (b: bool)
    ensures
        b == (surface == ArenaSurface::Code && (panel_visible || button == Some(true))),
{
    match surface {
        ArenaSurface::Text => false,
        ArenaSurface::Code => panel_visible || match button {
            Some(active) => active,
            None => false,
        },
    }
}

// ── Menus ───────────────────────────────────────────────────────────────────

/// An open dropdown raises the menu region's whole-number mean luma above
/// 65 (the dark page alone measures about 56).
pub open spec fn menu_open_spec(menu: Seq<u8>) -> bool {
    luma_sum(menu) / (if menu.len() == 0 { 1int } else { menu.len() as int }) > 65
}

pub fn menu_region_is_open(menu: &GrayMatrix) -> (open: bool)
    ensures
        open == menu_open_spec(menu.data@),
{
    let st = PixelStats::of_all(&menu.data);
    let n: u128 = if st.n == 0 { 1 } else { st.n as u128 };
    st.sum / n > 65
}

// ── Attachments ─────────────────────────────────────────────────────────────

/// The attach scan, send button and input box for an upload: the fresh
/// page's when the screen reads Ready, the conversation's otherwise.
pub fn upload_regions(r: &Regions, state: WebUiState) -> (g: (Region, Region, Region))
    ensures
        g == (if state == WebUiState::Ready {
            (r.attach_scan_fresh, r.send_or_stop, r.input_box)
        } else {
            (r.attach_scan_inchat, r.send_or_stop_inchat, r.input_box)
        }),
{
    match state {
        WebUiState::Ready => (r.attach_scan_fresh, r.send_or_stop, r.input_box),
        _ => (r.attach_scan_inchat, r.send_or_stop_inchat, r.input_box),
    }
}

/// Where an attachment chip sits in the input box: the left 45 % of the
/// box, from 55 % down to 12 % above its bottom (whole-number percentages,
/// rounded toward zero).
pub open spec fn chip_region_spec(b: Region) -> Region {
    let w = b.x2 - b.x1;
    let h = b.y2 - b.y1;
    Region {
        x1: b.x1,
        y1: (b.y1 + div_toward_zero(h * 55, 100)) as i32,
        x2: (b.x1 + div_toward_zero(w * 45, 100)) as i32,
        y2: (b.y2 - div_toward_zero(h * 12, 100)) as i32,
    }
}

pub open spec fn chip_region_fits(b: Region) -> bool {
    let w = b.x2 - b.x1;
    let h = b.y2 - b.y1;
    &&& i32::MIN <= w <= i32::MAX
    &&& i32::MIN <= h <= i32::MAX
    &&& i32::MIN <= w * 45 <= i32::MAX
    &&& i32::MIN <= h * 55 <= i32::MAX
    &&& i32::MIN <= b.y1 + div_toward_zero(h * 55, 100) <= i32::MAX
    &&& i32::MIN <= b.x1 + div_toward_zero(w * 45, 100) <= i32::MAX
    &&& i32::MIN <= b.y2 - div_toward_zero(h * 12, 100) <= i32::MAX
}

pub fn chip_region(input_box: Region) -> (g: Region)
    requires
        chip_region_fits(input_box),
    ensures
        g == chip_region_spec(input_box),
{
    let w = input_box.x2 - input_box.x1;
    let h = input_box.y2 - input_box.y1;
    proof {
        assert(i32::MIN <= h * 12 <= i32::MAX);
    }
    Region {
        x1: input_box.x1,
        y1: input_box.y1 + h * 55 / 100,
        x2: input_box.x1 + w * 45 / 100,
        y2: input_box.y2 - h * 12 / 100,
    }
}

/// The point to click to remove an attachment already in the input: none
/// unless the chip region is busy (variance at least 150); then the close
/// button's template match, or else the close glyph found in the capture.
pub open spec fn chip_close_spec(chip: Region, cap: &GrayMatrix, template_hit: Option<(i32, i32)>) -> Option<(int, int)> {
    if !variance_at_least(cap.data@, 150) {
        None
    } else {
        match template_hit {
            Some(p) => Some((p.0 as int, p.1 as int)),
            None => match close_grid_hit(cap, 0) {
                Some(q) => Some((chip.x1 + q.0, chip.y1 + q.1)),
                None => None,
            },
        }
    }
}

pub fn chip_close_target(chip: Region, cap: &GrayMatrix, template_hit: Option<(i32, i32)>) -> (t: Option<(i32, i32)>)
    requires
        cap.wf(),
        cap.width <= i32::MAX,
        cap.height <= i32::MAX,
        chip.x1 + cap.width <= i32::MAX,
        chip.y1 + cap.height <= i32::MAX,
    ensures
        match chip_close_spec(chip, cap, template_hit) {
            Some(q) => t == Some((q.0 as i32, q.1 as i32)),
            None => t is None,
        },
{
    let st = PixelStats::of_all(&cap.data);
    if !st.variance_at_least(150) {
        return None;
    }
    match template_hit {
        Some(p) => Some(p),
        None => match arena_find_close_button_pixel(cap) {
            Some((lx, ly)) => {
                proof {
                    lemma_close_hit_inside(cap);
                }
                Some((chip.x1 + lx, chip.y1 + ly))
            },
            None => None,
        },
    }
}

/// Without a send-button template, the upload is taken as finished when
/// the send button's region turns busy (variance above 200).
pub fn upload_done_by_variance(send: &GrayMatrix) -> (done: bool)
    ensures
        done == variance_above(send.data@, 200),
{
    PixelStats::of_all(&send.data).variance_above(200)
}

} // verus!
