//! Pixel-level detectors of the Arena adapter that work on an already
//! captured matrix.
use vstd::prelude::*;
use crate::adapter::{Region, center_spec, region_center};
use crate::blobs::{Blob, bright_components, is_component_list, lemma_blob_bounds};
use crate::matrix::{BlobStats, GrayMatrix, blob_step};
use crate::text::{has_substr, lower_text, str_contains, to_lowercase};

verus! {

// ── Attachment-chip close button ────────────────────────────────────────────

/// Luma above which a pixel counts as part of the close button's glyph.
pub open spec fn close_glyph_bright(v: u8) -> bool {
    v > 185
}

/// Row `dy` of the 28×28 window at `(wx, wy)`, first `n` pixels, folded onto `st`.
pub open spec fn close_win_row(cap: &GrayMatrix, wx: int, wy: int, dy: int, n: int, st: BlobStats) -> BlobStats
    decreases n,
{
    if n <= 0 {
        st
    } else {
        blob_step(close_win_row(cap, wx, wy, dy, n - 1, st), close_glyph_bright(cap.px(wx + n - 1, wy + dy)), n - 1, dy)
    }
}

/// The first `m` rows of the 28×28 window at `(wx, wy)`.
pub open spec fn close_win_rows(cap: &GrayMatrix, wx: int, wy: int, m: int) -> BlobStats
    decreases m,
{
    if m <= 0 {
        BlobStats { count: 0, min_x: 28, min_y: 28, max_x: 0, max_y: 0 }
    } else {
        close_win_row(cap, wx, wy, m - 1, 28, close_win_rows(cap, wx, wy, m - 1))
    }
}

/// The click point a window yields: its bright glyph has 6..=150 pixels, a
/// bounding box of at most 24×24 and an aspect (10·width/height) in 4..=25.
pub open spec fn close_candidate(cap: &GrayMatrix, wx: int, wy: int) -> Option<(int, int)> {
    let st = close_win_rows(cap, wx, wy, 28);
    let sx = st.max_x - st.min_x + 1;
    let sy = st.max_y - st.min_y + 1;
    if 6 <= st.count <= 150 && sx <= 24 && sy <= 24 && sx > 0 && sy > 0 && 4 <= (sx * 10) / sy <= 25 {
        Some((wx + (st.min_x + st.max_x) / 2, wy + (st.min_y + st.max_y) / 2))
    } else {
        None
    }
}

/// The first candidate in row `wy` at or after `wx`, stepping by 4.
pub open spec fn close_row_hit(cap: &GrayMatrix, wy: int, wx: int) -> Option<(int, int)>
    decreases cap.width - wx,
{
    if wx < 0 || wx > cap.width - 28 {
        None
    } else {
        match close_candidate(cap, wx, wy) {
            Some(p) => Some(p),
            None => close_row_hit(cap, wy, wx + 4),
        }
    }
}

/// The first candidate at or below row `wy`, rows stepping by 4.
pub open spec fn close_grid_hit(cap: &GrayMatrix, wy: int) -> Option<(int, int)>
    decreases cap.height - wy,
{
    if wy < 0 || wy > cap.height - 28 {
        None
    } else {
        match close_row_hit(cap, wy, 0) {
            Some(p) => Some(p),
            None => close_grid_hit(cap, wy + 4),
        }
    }
}

/// The glyph statistics stay inside a 28×28 window.
pub open spec fn stats_in_window(st: BlobStats) -> bool {
    &&& 0 <= st.min_x <= 28
    &&& 0 <= st.max_x <= 27
    &&& 0 <= st.min_y <= 28
    &&& 0 <= st.max_y <= 27
}

proof fn lemma_win_row_inside(cap: &GrayMatrix, wx: int, wy: int, dy: int, n: int, st: BlobStats)
    requires
        0 <= dy <= 27,
        n <= 28,
        stats_in_window(st),
    ensures
        stats_in_window(close_win_row(cap, wx, wy, dy, n, st)),
    decreases n,
{
    if n > 0 {
        lemma_win_row_inside(cap, wx, wy, dy, n - 1, st);
    }
}

proof fn lemma_win_rows_inside(cap: &GrayMatrix, wx: int, wy: int, m: int)
    requires
        m <= 28,
    ensures
        stats_in_window(close_win_rows(cap, wx, wy, m)),
    decreases m,
{
    if m > 0 {
        lemma_win_rows_inside(cap, wx, wy, m - 1);
        lemma_win_row_inside(cap, wx, wy, m - 1, 28, close_win_rows(cap, wx, wy, m - 1));
    }
}

proof fn lemma_row_hit_inside(cap: &GrayMatrix, wy: int, wx: int)
    requires
        wx >= 0,
    ensures
        match close_row_hit(cap, wy, wx) {
            Some(p) => 0 <= p.0 < cap.width && wy <= p.1 <= wy + 27,
            None => true,
        },
    decreases cap.width - wx,
{
    if !(wx < 0 || wx > cap.width - 28) {
        lemma_win_rows_inside(cap, wx, wy, 28);
        if close_candidate(cap, wx, wy) is None {
            lemma_row_hit_inside(cap, wy, wx + 4);
        }
    }
}

proof fn lemma_grid_hit_inside(cap: &GrayMatrix, wy: int)
    requires
        wy >= 0,
    ensures
        match close_grid_hit(cap, wy) {
            Some(p) => 0 <= p.0 < cap.width && 0 <= p.1 < cap.height,
            None => true,
        },
    decreases cap.height - wy,
{
    if !(wy < 0 || wy > cap.height - 28) {
        lemma_row_hit_inside(cap, wy, 0);
        if close_row_hit(cap, wy, 0) is None {
            lemma_grid_hit_inside(cap, wy + 4);
        }
    }
}

/// A close-button hit lies inside the capture.
pub proof fn lemma_close_hit_inside(cap: &GrayMatrix)
    ensures
        match close_grid_hit(cap, 0) {
            Some(p) => 0 <= p.0 < cap.width && 0 <= p.1 < cap.height,
            None => true,
        },
{
    lemma_grid_hit_inside(cap, 0);
}

fn close_window_stats(cap: &GrayMatrix, wx: i32, wy: i32) -> (r: (i32, i32, i32, i32, i32))
    requires
        cap.wf(),
        0 <= wx,
        0 <= wy,
        wx + 28 <= cap.width,
        wy + 28 <= cap.height,
        cap.width <= i32::MAX,
        cap.height <= i32::MAX,
    ensures
        ({
            let st = close_win_rows(cap, wx as int, wy as int, 28);
            r.0 == st.count && r.1 == st.min_x && r.2 == st.min_y && r.3 == st.max_x && r.4 == st.max_y
        }),
        0 <= r.0 <= 784,
        0 <= r.1 <= 28,
        0 <= r.2 <= 28,
        0 <= r.3 <= 27,
        0 <= r.4 <= 27,
{
    let mut count: i32 = 0;
    let mut min_x: i32 = 28;
    let mut min_y: i32 = 28;
    let mut max_x: i32 = 0;
    let mut max_y: i32 = 0;
    let mut dy: i32 = 0;
    while dy < 28
        invariant
            cap.wf(),
            0 <= wx,
            0 <= wy,
            wx + 28 <= cap.width,
            wy + 28 <= cap.height,
            0 <= dy <= 28,
            0 <= count <= dy * 28,
            cap.width <= i32::MAX,
            cap.height <= i32::MAX,
            0 <= min_x <= 28,
            0 <= min_y <= 28,
            0 <= max_x <= 27,
            0 <= max_y <= 27,
            ({
                let st = close_win_rows(cap, wx as int, wy as int, dy as int);
                count == st.count && min_x == st.min_x && min_y == st.min_y && max_x == st.max_x && max_y == st.max_y
            }),
        decreases 28 - dy,
    {
        let mut dx: i32 = 0;
        while dx < 28
            invariant
                cap.wf(),
                0 <= wx,
                0 <= wy,
                wx + 28 <= cap.width,
                wy + 28 <= cap.height,
                0 <= dy < 28,
                0 <= dx <= 28,
                0 <= count <= dy * 28 + dx,
                cap.width <= i32::MAX,
                cap.height <= i32::MAX,
                0 <= min_x <= 28,
                0 <= min_y <= 28,
                0 <= max_x <= 27,
                0 <= max_y <= 27,
                ({
                    let st = close_win_row(cap, wx as int, wy as int, dy as int, dx as int, close_win_rows(cap, wx as int, wy as int, dy as int));
                    count == st.count && min_x == st.min_x && min_y == st.min_y && max_x == st.max_x && max_y == st.max_y
                }),
            decreases 28 - dx,
        {
            let px = (wx + dx) as usize;
            let py = (wy + dy) as usize;
            if cap.get(px, py) > 185 {
                count += 1;
                if dx < min_x {
                    min_x = dx;
                }
                if dy < min_y {
                    min_y = dy;
                }
                if dx > max_x {
                    max_x = dx;
                }
                if dy > max_y {
                    max_y = dy;
                }
            }
            dx += 1;
        }
        dy += 1;
    }
    (count, min_x, min_y, max_x, max_y)
}

/// Scan a captured chip strip for the close (×) button: the first 28×28
/// window, stepping by 4 pixels row by row, whose bright glyph has the size
/// and shape of the ×. Returns its centre in capture coordinates.
pub fn arena_find_close_button_pixel(cap: &GrayMatrix) -> (r: Option<(i32, i32)>)
    requires
        cap.wf(),
        cap.width <= i32::MAX,
        cap.height <= i32::MAX,
    ensures
        match close_grid_hit(cap, 0) {
            Some(p) => r == Some((p.0 as i32, p.1 as i32)),
            None => r is None,
        },
{
    let w = cap.width as i32;
    let h = cap.height as i32;
    let mut wy: i32 = 0;
    while wy <= h - 28
        invariant
            cap.wf(),
            w == cap.width,
            h == cap.height,
            w <= i32::MAX,
            h <= i32::MAX,
            0 <= wy <= h,
            close_grid_hit(cap, 0) == close_grid_hit(cap, wy as int),
        decreases h - wy,
    {
        let mut wx: i32 = 0;
        while wx <= w - 28
            invariant
                cap.wf(),
                w == cap.width,
                h == cap.height,
                w <= i32::MAX,
                0 <= wy <= h - 28,
                0 <= wx <= w,
                close_row_hit(cap, wy as int, 0) == close_row_hit(cap, wy as int, wx as int),
                close_grid_hit(cap, 0) == close_grid_hit(cap, wy as int),
            decreases w - wx,
        {
            let (count, min_x, min_y, max_x, max_y) = close_window_stats(cap, wx, wy);
            if 6 <= count && count <= 150 {
                let sx = max_x - min_x + 1;
                let sy = max_y - min_y + 1;
                if sx <= 24 && sy <= 24 && sx > 0 && sy > 0 {
                    let aspect = sx * 10 / sy;
                    if 4 <= aspect && aspect <= 25 {
                        return Some((wx + (min_x + max_x) / 2, wy + (min_y + max_y) / 2));
                    }
                }
            }
            wx += 4;
        }
        wy += 4;
    }
    None
}

// ── Dark frame around a bright component ───────────────────────────────────

/// Whether `(x, y)` lies in the component's bounding box.
pub open spec fn in_box(x: int, y: int, min_x: int, max_x: int, min_y: int, max_y: int) -> bool {
    min_x <= x <= max_x && min_y <= y <= max_y
}

/// Frame pixels and dark (luma ≤ 90) frame pixels among the first `n`
/// pixels of row `y` starting at `x1`, the component's box excluded.
pub open spec fn frame_row(cap: &GrayMatrix, x1: int, y: int, n: int, bx: (int, int, int, int)) -> (int, int)
    decreases n,
{
    if n <= 0 {
        (0, 0)
    } else {
        let prev = frame_row(cap, x1, y, n - 1, bx);
        let x = x1 + n - 1;
        if in_box(x, y, bx.0, bx.1, bx.2, bx.3) {
            prev
        } else {
            (prev.0 + 1, prev.1 + if cap.px(x, y) <= 90 { 1int } else { 0int })
        }
    }
}

/// The same counts over the first `m` rows starting at `y1`, `n` pixels each.
pub open spec fn frame_rows(cap: &GrayMatrix, x1: int, n: int, y1: int, m: int, bx: (int, int, int, int)) -> (int, int)
    decreases m,
{
    if m <= 0 {
        (0, 0)
    } else {
        let prev = frame_rows(cap, x1, n, y1, m - 1, bx);
        let row = frame_row(cap, x1, y1 + m - 1, n, bx);
        (prev.0 + row.0, prev.1 + row.1)
    }
}

/// A bright component framed by dark pixels: the 7-pixel band around its
/// bounding box lies inside the capture, has at least 300 pixels, and at
/// least 55% of them have luma ≤ 90.
pub open spec fn dark_frame_spec(cap: &GrayMatrix, min_x: int, max_x: int, min_y: int, max_y: int) -> bool {
    if cap.width == 0 || cap.height == 0 {
        false
    } else if min_x < 7 || min_y < 7 || max_x + 7 >= cap.width || max_y + 7 >= cap.height {
        false
    } else {
        let c = frame_rows(cap, min_x - 7, max_x - min_x + 15, min_y - 7, max_y - min_y + 15, (min_x, max_x, min_y, max_y));
        c.0 >= 300 && 20 * c.1 >= 11 * c.0
    }
}

pub fn has_dark_frame_around_component(cap: &GrayMatrix, min_x: usize, max_x: usize, min_y: usize, max_y: usize) -> (b: bool)
    requires
        cap.wf(),
        min_x <= max_x,
        min_y <= max_y,
        max_x < cap.width,
        max_y < cap.height,
    ensures
        b == dark_frame_spec(cap, min_x as int, max_x as int, min_y as int, max_y as int),
{
    if cap.width == 0 || cap.height == 0 {
        return false;
    }
    let pad: usize = 7;
    if min_x < pad || min_y < pad || cap.width - max_x <= pad || cap.height - max_y <= pad {
        return false;
    }
    let x1 = min_x - pad;
    let x2 = max_x + pad;
    let y1 = min_y - pad;
    let y2 = max_y + pad;
    let ghost bx = (min_x as int, max_x as int, min_y as int, max_y as int);
    let cells = cap.data.len();
    let ghost n = (x2 - x1 + 1) as int;
    let ghost rows = (y2 - y1 + 1) as int;
    let ghost total = rows * n;
    assert(total <= cap.width * cap.height) by (nonlinear_arith)
        requires
            total == rows * n,
            0 < n <= cap.width,
            0 < rows <= cap.height,
    ;
    let mut border: usize = 0;
    let mut dark: usize = 0;
    let mut y = y1;
    while y <= y2
        invariant
            cap.wf(),
            x1 <= x2 < cap.width,
            y1 <= y <= y2 + 1,
            y2 < cap.height,
            n == x2 - x1 + 1,
            bx == (min_x as int, max_x as int, min_y as int, max_y as int),
            (border as int, dark as int) == frame_rows(cap, x1 as int, n, y1 as int, (y - y1) as int, bx),
            dark <= border <= (y - y1) * n,
            rows == y2 - y1 + 1,
            total == rows * n,
            total <= usize::MAX,
        decreases y2 + 1 - y,
    {
        let mut x = x1;
        let ghost b0 = border as int;
        let ghost d0 = dark as int;
        assert((y - y1) * n + n <= total) by (nonlinear_arith)
            requires
                total == rows * n,
                0 <= y - y1 < rows,
                0 < n,
        ;
        while x <= x2
            invariant
                cap.wf(),
                x1 <= x <= x2 + 1,
                x2 < cap.width,
                y1 <= y <= y2,
                y2 < cap.height,
                n == x2 - x1 + 1,
                bx == (min_x as int, max_x as int, min_y as int, max_y as int),
                (b0, d0) == frame_rows(cap, x1 as int, n, y1 as int, (y - y1) as int, bx),
                (border - b0, dark - d0) == frame_row(cap, x1 as int, y as int, (x - x1) as int, bx),
                d0 <= b0 <= (y - y1) * n,
                dark - d0 <= border - b0 <= x - x1,
                d0 <= dark,
                (y - y1) * n + n <= total,
                total <= usize::MAX,
            decreases x2 + 1 - x,
        {
            let inside = x >= min_x && x <= max_x && y >= min_y && y <= max_y;
            if !inside {
                border += 1;
                if cap.get(x, y) <= 90 {
                    dark += 1;
                }
            }
            x += 1;
        }
        proof {
            assert((y - y1 + 1) * n == (y - y1) * n + n) by (nonlinear_arith);
        }
        y += 1;
    }
    border >= 300 && dark as u128 * 20 >= border as u128 * 11
}


// ── White stop square in the middle of the screen ───────────────────────────

/// A bright (luma ≥ 200) component shaped like the white stop square:
/// 32..=75 pixels on each side with sides within 18 of each other, at least
/// 900 pixels filling at least 55% of its box, a mean luma of at least 230,
/// and a dark frame around it.
pub open spec fn stop_square_shape(cap: &GrayMatrix, b: Blob) -> bool {
    let bw = b.max_x - b.min_x + 1;
    let bh = b.max_y - b.min_y + 1;
    &&& 32 <= bw <= 75
    &&& 32 <= bh <= 75
    &&& -18 <= bw - bh <= 18
    &&& b.area >= 900
    &&& 20 * b.area >= 11 * bw * bh
    &&& b.sum >= 230 * b.area
    &&& dark_frame_spec(cap, b.min_x as int, b.max_x as int, b.min_y as int, b.max_y as int)
}

/// The accepted component with the largest luma sum (area × mean); of equal
/// sums the earlier one is kept.
pub open spec fn best_stop_square(cap: &GrayMatrix, blobs: Seq<Blob>) -> Option<Blob>
    decreases blobs.len(),
{
    if blobs.len() == 0 {
        None
    } else {
        let prev = best_stop_square(cap, blobs.drop_last());
        let b = blobs.last();
        if stop_square_shape(cap, b) && (prev is None || b.sum > prev->0.sum) {
            Some(b)
        } else {
            prev
        }
    }
}

/// The click point of a component: the centre of its box (rounded up) in
/// screen coordinates, shifted by the capture-to-mouse offset.
pub open spec fn stop_square_point(region: Region, mouse_offset: (i32, i32), b: Blob) -> (int, int) {
    (
        region.x1 + (b.min_x + b.max_x + 1) / 2 + mouse_offset.0,
        region.y1 + (b.min_y + b.max_y + 1) / 2 + mouse_offset.1,
    )
}

/// Find the white stop square in a capture of `region`: the best bright
/// component of stop-square shape, as a mouse point.
pub fn find_bright_stop_square_in_region(cap: &GrayMatrix, region: Region, mouse_offset: (i32, i32)) -> (r: Option<(i32, i32)>)
    requires
        cap.wf(),
        cap.width <= i32::MAX,
        cap.height <= i32::MAX,
        region.x1 + cap.width <= i32::MAX,
        region.y1 + cap.height <= i32::MAX,
        i32::MIN <= region.x1 + mouse_offset.0,
        i32::MIN <= region.y1 + mouse_offset.1,
        region.x1 + cap.width + mouse_offset.0 <= i32::MAX,
        region.y1 + cap.height + mouse_offset.1 <= i32::MAX,
    ensures
        exists|blobs: Seq<Blob>| #[trigger] is_component_list(cap, 200, blobs)
            && match best_stop_square(cap, blobs) {
                None => r is None,
                Some(b) => r == Some(
                    (stop_square_point(region, mouse_offset, b).0 as i32, stop_square_point(region, mouse_offset, b).1 as i32),
                ),
            },
{
    let blobs = bright_components(cap, 200);
    let mut best: Option<Blob> = None;
    let mut i: usize = 0;
    while i < blobs.len()
        invariant
            cap.wf(),
            is_component_list(cap, 200, blobs@),
            i <= blobs.len(),
            best == best_stop_square(cap, blobs@.take(i as int)),
            best matches Some(b) ==> b.min_x <= b.max_x < cap.width && b.min_y <= b.max_y < cap.height,
        decreases blobs.len() - i,
    {
        let b = blobs[i];
        proof {
            assert(crate::blobs::blob_of(cap, 200, blobs@[i as int]));
            lemma_blob_bounds(cap, 200, b);
            assert(blobs@.take(i + 1).drop_last() =~= blobs@.take(i as int));
            assert(blobs@.take(i + 1).last() == b);
        }
        let bw = b.max_x - b.min_x + 1;
        let bh = b.max_y - b.min_y + 1;
        let mut shape = false;
        if 32 <= bw && bw <= 75 && 32 <= bh && bh <= 75 {
            let close_sides = if bw >= bh { bw - bh <= 18 } else { bh - bw <= 18 };
            assert((bw as u128) * (bh as u128) <= 5625) by (nonlinear_arith)
                requires
                    bw <= 75,
                    bh <= 75,
            ;
            let box_cells = (bw as u128) * (bh as u128);
            shape = close_sides && b.area >= 900 && (b.area as u128) * 20 >= box_cells * 11
                && b.sum >= (b.area as u128) * 230
                && has_dark_frame_around_component(cap, b.min_x, b.max_x, b.min_y, b.max_y);
            assert(11 * (bw as int) * (bh as int) == box_cells * 11) by (nonlinear_arith)
                requires
                    box_cells == (bw as int) * (bh as int),
            ;
        }
        assert(shape == stop_square_shape(cap, b));
        if shape {
            let better = match best {
                None => true,
                Some(prev) => b.sum > prev.sum,
            };
            if better {
                best = Some(b);
            }
        }
        i += 1;
    }
    proof {
        assert(blobs@.take(blobs@.len() as int) =~= blobs@);
    }
    match best {
        None => None,
        Some(b) => {
            let cx = region.x1 + ((b.min_x + b.max_x + 1) / 2) as i32;
            let cy = region.y1 + ((b.min_y + b.max_y + 1) / 2) as i32;
            Some((cx + mouse_offset.0, cy + mouse_offset.1))
        },
    }
}


// ── Bright Download button in the code panel's toolbar ──────────────────────

/// A bright toolbar button: its click point (mouse coordinates), its box in
/// screen coordinates, and its area and luma sum.
#[derive(Clone, Copy, Debug)]
pub struct ButtonCandidate {
    pub center: (i32, i32),
    pub bounds: Region,
    pub area: usize,
    pub sum: u128,
}

/// The screen box of a component of a capture of `region` (`x2`/`y2` exclusive).
pub open spec fn screen_box(region: Region, b: Blob) -> Region {
    Region {
        x1: (region.x1 + b.min_x) as i32,
        y1: (region.y1 + b.min_y) as i32,
        x2: (region.x1 + b.max_x + 1) as i32,
        y2: (region.y1 + b.max_y + 1) as i32,
    }
}

/// The candidate a component makes: the centre of its screen box, shifted
/// by the capture-to-mouse offset.
pub open spec fn toolbar_candidate(region: Region, mouse_offset: (i32, i32), b: Blob) -> ButtonCandidate {
    let bx = screen_box(region, b);
    let c = center_spec(bx);
    ButtonCandidate {
        center: ((c.0 + mouse_offset.0) as i32, (c.1 + mouse_offset.1) as i32),
        bounds: bx,
        area: b.area,
        sum: b.sum,
    }
}

/// A bright (luma ≥ 150) component shaped like the Download button: a box
/// of 70..=190 × 20..=55 pixels, at least 900 pixels, its centre within 260
/// pixels of the screen's right edge.
pub open spec fn toolbar_shape(region: Region, screen_width: i32, b: Blob) -> bool {
    let bw = b.max_x - b.min_x + 1;
    let bh = b.max_y - b.min_y + 1;
    &&& 70 <= bw <= 190
    &&& 20 <= bh <= 55
    &&& b.area >= 900
    &&& center_spec(screen_box(region, b)).0 >= screen_width - 260
}

/// `a` beats `b`: further right, or as far right and brighter on average.
pub open spec fn toolbar_beats(a: ButtonCandidate, b: ButtonCandidate) -> bool {
    a.center.0 > b.center.0 || (a.center.0 == b.center.0 && a.sum * b.area > b.sum * a.area)
}

/// The rightmost accepted component (the brightest on average among equally
/// far right ones; of exact ties the earlier one is kept).
pub open spec fn best_toolbar(region: Region, screen_width: i32, mouse_offset: (i32, i32), blobs: Seq<Blob>) -> Option<ButtonCandidate>
    decreases blobs.len(),
{
    if blobs.len() == 0 {
        None
    } else {
        let prev = best_toolbar(region, screen_width, mouse_offset, blobs.drop_last());
        let b = blobs.last();
        let cand = toolbar_candidate(region, mouse_offset, b);
        if toolbar_shape(region, screen_width, b) && (prev is None || toolbar_beats(cand, prev->0)) {
            Some(cand)
        } else {
            prev
        }
    }
}

/// Whether the mean `s1 / a1` exceeds the mean `s2 / a2`, compared exactly.
fn mean_greater(s1: u128, a1: usize, s2: u128, a2: usize) -> (g: bool)
    requires
        a1 >= 1,
        a2 >= 1,
    ensures
        g == (s1 * a2 > s2 * a1),
{
    let q1 = s1 / (a1 as u128);
    let r1 = s1 % (a1 as u128);
    let q2 = s2 / (a2 as u128);
    let r2 = s2 % (a2 as u128);
    proof {
        vstd::arithmetic::div_mod::lemma_fundamental_div_mod(s1 as int, a1 as int);
        vstd::arithmetic::div_mod::lemma_fundamental_div_mod(s2 as int, a2 as int);
    }
    let ghost d = s1 * a2 - s2 * a1;
    assert(d == (q1 - q2) * a1 * a2 + r1 * a2 - r2 * a1) by (nonlinear_arith)
        requires
            s1 == a1 * q1 + r1,
            s2 == a2 * q2 + r2,
            d == s1 * a2 - s2 * a1,
    ;
    if q1 != q2 {
        assert((q1 > q2) == (d > 0)) by (nonlinear_arith)
            requires
                d == (q1 - q2) * a1 * a2 + r1 * a2 - r2 * a1,
                0 <= r1 < a1,
                0 <= r2 < a2,
                q1 != q2,
        ;
        q1 > q2
    } else {
        assert(d == r1 * a2 - r2 * a1) by (nonlinear_arith)
            requires
                d == (q1 - q2) * a1 * a2 + r1 * a2 - r2 * a1,
                q1 == q2,
        ;
        assert(r1 * (a2 as u128) < (a1 as u128) * (a2 as u128)) by (nonlinear_arith)
            requires
                r1 < a1,
                a2 >= 1,
        ;
        assert(r2 * (a1 as u128) < (a2 as u128) * (a1 as u128)) by (nonlinear_arith)
            requires
                r2 < a2,
                a1 >= 1,
        ;
        assert((a1 as int) * (a2 as int) <= u128::MAX) by (nonlinear_arith)
            requires
                a1 <= usize::MAX,
                a2 <= usize::MAX,
                usize::MAX <= u64::MAX,
        ;
        r1 * (a2 as u128) > r2 * (a1 as u128)
    }
}

/// Find the bright Download button in a capture of the toolbar `region`:
/// the rightmost bright component of button shape near the screen's right
/// edge.
pub fn find_bright_toolbar_button(cap: &GrayMatrix, region: Region, screen_width: i32, mouse_offset: (i32, i32)) -> (r: Option<ButtonCandidate>)
    requires
        cap.wf(),
        cap.width <= i32::MAX,
        cap.height <= i32::MAX,
        i32::MIN <= 2 * region.x1,
        i32::MIN <= 2 * region.y1,
        2 * (region.x1 + cap.width) <= i32::MAX,
        2 * (region.y1 + cap.height) <= i32::MAX,
        i32::MIN <= region.x1 + mouse_offset.0,
        i32::MIN <= region.y1 + mouse_offset.1,
        region.x1 + cap.width + mouse_offset.0 <= i32::MAX,
        region.y1 + cap.height + mouse_offset.1 <= i32::MAX,
        screen_width >= i32::MIN + 260,
    ensures
        exists|blobs: Seq<Blob>| #[trigger] is_component_list(cap, 150, blobs)
            && r == best_toolbar(region, screen_width, mouse_offset, blobs),
{
    let blobs = bright_components(cap, 150);
    let mut best: Option<ButtonCandidate> = None;
    let mut i: usize = 0;
    while i < blobs.len()
        invariant
            cap.wf(),
            cap.width <= i32::MAX,
            cap.height <= i32::MAX,
            i32::MIN <= 2 * region.x1,
            i32::MIN <= 2 * region.y1,
            2 * (region.x1 + cap.width) <= i32::MAX,
            2 * (region.y1 + cap.height) <= i32::MAX,
            i32::MIN <= region.x1 + mouse_offset.0,
            i32::MIN <= region.y1 + mouse_offset.1,
            region.x1 + cap.width + mouse_offset.0 <= i32::MAX,
            region.y1 + cap.height + mouse_offset.1 <= i32::MAX,
            screen_width >= i32::MIN + 260,
            is_component_list(cap, 150, blobs@),
            i <= blobs.len(),
            best == best_toolbar(region, screen_width, mouse_offset, blobs@.take(i as int)),
            best matches Some(c) ==> c.area >= 1,
        decreases blobs.len() - i,
    {
        let b = blobs[i];
        proof {
            assert(crate::blobs::blob_of(cap, 150, blobs@[i as int]));
            lemma_blob_bounds(cap, 150, b);
            assert(blobs@.take(i + 1).drop_last() =~= blobs@.take(i as int));
            assert(blobs@.take(i + 1).last() == b);
        }
        let bw = b.max_x - b.min_x + 1;
        let bh = b.max_y - b.min_y + 1;
        if 70 <= bw && bw <= 190 && 20 <= bh && bh <= 55 && b.area >= 900 {
            let bounds = Region {
                x1: region.x1 + b.min_x as i32,
                y1: region.y1 + b.min_y as i32,
                x2: region.x1 + b.max_x as i32 + 1,
                y2: region.y1 + b.max_y as i32 + 1,
            };
            let c = region_center(bounds);
            if c.0 >= screen_width - 260 {
                let cand = ButtonCandidate {
                    center: (c.0 + mouse_offset.0, c.1 + mouse_offset.1),
                    bounds,
                    area: b.area,
                    sum: b.sum,
                };
                proof {
                    assert(cand == toolbar_candidate(region, mouse_offset, b));
                }
                let replace = match best {
                    None => true,
                    Some(prev) => {
                        cand.center.0 > prev.center.0 || (cand.center.0 == prev.center.0 && mean_greater(cand.sum, cand.area, prev.sum, prev.area))
                    },
                };
                if replace {
                    best = Some(cand);
                }
            }
        }
        i += 1;
    }
    proof {
        assert(blobs@.take(blobs@.len() as int) =~= blobs@);
    }
    best
}

// ── Where the browser is ────────────────────────────────────────────────────

/// What the active tab's URL tells about the page.
#[derive(Clone, Copy, Debug, PartialEq, Eq, Structural)]
pub enum UrlClass {
    /// arena.ai, arena.ai/text/*, arena.ai/code/*: an empty chat.
    Home,
    /// arena.ai/c/<uuid>: a conversation.
    InChat,
    /// Somewhere else entirely.
    OffSite,
    /// The URL could not be read.
    Unknown,
}

/// The class of a lowercased URL.
pub open spec fn arena_url_class(l: Seq<char>) -> UrlClass {
    if !(has_substr(l, "arena.ai"@) || has_substr(l, "lmarena.ai"@)) {
        UrlClass::OffSite
    } else if has_substr(l, "/c/"@) {
        UrlClass::InChat
    } else {
        UrlClass::Home
    }
}

/// Classify the active tab from the result of reading its URL: the URL is
/// lowercased, then looked at for the Arena host and a conversation path.
pub fn classify_url(url: &Result<String, String>) -> (c: UrlClass)
    ensures
        c == match url {
            Ok(u) => arena_url_class(lower_text(u@)),
            Err(_) => UrlClass::Unknown,
        },
{
    match url {
        Ok(u) => {
            let lower = to_lowercase(u.as_str());
            let l = lower.as_str();
            if !(str_contains(l, "arena.ai") || str_contains(l, "lmarena.ai")) {
                return UrlClass::OffSite;
            }
            if str_contains(l, "/c/") {
                return UrlClass::InChat;
            }
            UrlClass::Home
        },
        Err(_) => UrlClass::Unknown,
    }
}

} // verus!
