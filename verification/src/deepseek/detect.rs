//! Pixel-level detectors of the DeepSeek adapter that work on an already
//! captured matrix of the send rail.
use vstd::prelude::*;
use crate::adapter::Region;
use crate::matrix::{BlobStats, GrayMatrix, RgbMatrix, blob_step};
use crate::text::{has_substr, lower_text, str_contains, to_lowercase};

verus! {

// ── White stop square ───────────────────────────────────────────────────────

/// Luma at or above which a pixel counts as white.
pub open spec fn white(v: u8) -> bool {
    v >= 210
}

/// White pixels among the first `n` pixels of row `y` starting at `x`.
pub open spec fn white_in_row(cap: &GrayMatrix, x: int, y: int, n: int) -> int
    decreases n,
{
    if n <= 0 {
        0
    } else {
        white_in_row(cap, x, y, n - 1) + if white(cap.px(x + n - 1, y)) { 1int } else { 0int }
    }
}

/// White pixels in the first `m` rows of the 12-pixel-wide window at `(x, y)`.
pub open spec fn white_in_window(cap: &GrayMatrix, x: int, y: int, m: int) -> int
    decreases m,
{
    if m <= 0 {
        0
    } else {
        white_in_window(cap, x, y, m - 1) + white_in_row(cap, x, y + m - 1, 12)
    }
}

/// The 12×12 window at `(x, y)` lies in the capture and holds at least 95
/// white pixels.
pub open spec fn white_square_at(cap: &GrayMatrix, x: int, y: int) -> bool {
    &&& 0 <= x && x + 12 <= cap.width
    &&& 0 <= y && y + 12 <= cap.height
    &&& white_in_window(cap, x, y, 12) >= 95
}

proof fn lemma_white_in_row_bounds(cap: &GrayMatrix, x: int, y: int, n: int)
    requires
        n >= 0,
    ensures
        0 <= white_in_row(cap, x, y, n) <= n,
    decreases n,
{
    if n > 0 {
        lemma_white_in_row_bounds(cap, x, y, n - 1);
    }
}

fn white_count_12(cap: &GrayMatrix, x: usize, y: usize) -> (c: usize)
    requires
        cap.wf(),
        x + 12 <= cap.width,
        y + 12 <= cap.height,
    ensures
        c == white_in_window(cap, x as int, y as int, 12),
{
    let mut c: usize = 0;
    let mut dy: usize = 0;
    while dy < 12
        invariant
            cap.wf(),
            x + 12 <= cap.width,
            y + 12 <= cap.height,
            0 <= dy <= 12,
            c == white_in_window(cap, x as int, y as int, dy as int),
            c <= dy * 12,
        decreases 12 - dy,
    {
        let ghost c0 = c as int;
        let mut dx: usize = 0;
        while dx < 12
            invariant
                cap.wf(),
                x + 12 <= cap.width,
                y + 12 <= cap.height,
                0 <= dy < 12,
                0 <= dx <= 12,
                c0 == white_in_window(cap, x as int, y as int, dy as int),
                c0 <= dy * 12,
                c == c0 + white_in_row(cap, x as int, (y + dy) as int, dx as int),
                c <= c0 + dx,
            decreases 12 - dx,
        {
            if cap.get(x + dx, y + dy) >= 210 {
                c += 1;
            }
            dx += 1;
        }
        dy += 1;
    }
    c
}

/// Whether a captured send rail shows the white stop square of a running
/// generation: some 12×12 window holds at least 95 pixels of luma ≥ 210.
pub fn find_white_stop_square(cap: &GrayMatrix) -> (found: bool)
    requires
        cap.wf(),
    ensures
        found == exists|x: int, y: int| #[trigger] white_square_at(cap, x, y),
{
    if cap.width < 12 || cap.height < 12 {
        return false;
    }
    let mut y: usize = 0;
    while y <= cap.height - 12
        invariant
            cap.wf(),
            12 <= cap.width,
            12 <= cap.height,
            y <= cap.height - 11,
            forall|x0: int, y0: int| 0 <= y0 < y ==> !#[trigger] white_square_at(cap, x0, y0),
        decreases cap.height - y,
    {
        let mut x: usize = 0;
        while x <= cap.width - 12
            invariant
                cap.wf(),
                12 <= cap.width,
                12 <= cap.height,
                y <= cap.height - 12,
                x <= cap.width - 11,
                forall|x0: int, y0: int| 0 <= y0 < y ==> !#[trigger] white_square_at(cap, x0, y0),
                forall|x0: int| 0 <= x0 < x ==> !#[trigger] white_square_at(cap, x0, y as int),
            decreases cap.width - x,
        {
            if white_count_12(cap, x, y) >= 95 {
                assert(white_square_at(cap, x as int, y as int));
                return true;
            }
            x += 1;
        }
        y += 1;
    }
    false
}

// ── Blue send button ────────────────────────────────────────────────────────

/// The fill colour of DeepSeek's send button.
pub open spec fn send_blue(p: [u8; 3]) -> bool {
    p[2] >= 150 && p[1] >= 90 && p[0] <= 120 && p[2] > p[0] + 45
}

/// The first `n` pixels of row `y` folded onto `st`.
pub open spec fn blue_row(cap: &RgbMatrix, y: int, n: int, st: BlobStats) -> BlobStats
    decreases n,
{
    if n <= 0 {
        st
    } else {
        blob_step(blue_row(cap, y, n - 1, st), send_blue(cap.px(n - 1, y)), n - 1, y)
    }
}

/// Blue pixels of the first `m` rows: their number and bounding box (an
/// empty box starts at `(width, height)`–`(0, 0)`).
pub open spec fn blue_rows(cap: &RgbMatrix, m: int) -> BlobStats
    decreases m,
{
    if m <= 0 {
        BlobStats { count: 0, min_x: cap.width as int, min_y: cap.height as int, max_x: 0, max_y: 0 }
    } else {
        blue_row(cap, m - 1, cap.width as int, blue_rows(cap, m - 1))
    }
}

/// The click point: the centre of the blue pixels' bounding box, offset by
/// the region's corner, when there are at least 250 of them and the box is
/// 28..=70 pixels on each side.
pub open spec fn blue_button_spec(cap: &RgbMatrix, region: Region) -> Option<(int, int)> {
    let st = blue_rows(cap, cap.height as int);
    let bw = st.max_x - st.min_x + 1;
    let bh = st.max_y - st.min_y + 1;
    if st.count < 250 {
        None
    } else if !(28 <= bw <= 70) || !(28 <= bh <= 70) {
        None
    } else {
        Some((region.x1 + (st.min_x + st.max_x) / 2, region.y1 + (st.min_y + st.max_y) / 2))
    }
}

/// Range facts of the fold: the box stays within the capture once a pixel
/// was selected, and the count never exceeds the pixels seen.
pub open spec fn blue_bounds(cap: &RgbMatrix, st: BlobStats, seen: int, max_x_bound: int, max_y_bound: int) -> bool {
    &&& 0 <= st.count <= seen
    &&& 0 <= st.min_x <= cap.width
    &&& 0 <= st.min_y <= cap.height
    &&& 0 <= st.max_x <= max_x_bound
    &&& 0 <= st.max_y <= max_y_bound
    &&& st.count > 0 ==> st.min_x <= st.max_x && st.min_y <= st.max_y
}

/// Locate DeepSeek's blue send button in a captured region (`cap` is the
/// capture of `region`). Returns the click point in screen coordinates.
pub fn find_blue_send_button(cap: &RgbMatrix, region: Region) -> (r: Option<(i32, i32)>)
    requires
        cap.wf(),
        cap.width <= i32::MAX,
        cap.height <= i32::MAX,
        region.x1 + cap.width <= i32::MAX,
        region.y1 + cap.height <= i32::MAX,
        region.x1 >= i32::MIN,
        region.y1 >= i32::MIN,
    ensures
        match blue_button_spec(cap, region) {
            Some(p) => r == Some((p.0 as i32, p.1 as i32)),
            None => r is None,
        },
{
    let w = cap.width;
    let h = cap.height;
    let cells = cap.data.len();
    let mut count: usize = 0;
    let mut min_x: usize = w;
    let mut min_y: usize = h;
    let mut max_x: usize = 0;
    let mut max_y: usize = 0;
    let mut y: usize = 0;
    while y < h
        invariant
            cap.wf(),
            w == cap.width,
            h == cap.height,
            cells == w * h,
            0 <= y <= h,
            ({
                let st = blue_rows(cap, y as int);
                count == st.count && min_x == st.min_x && min_y == st.min_y && max_x == st.max_x && max_y == st.max_y
            }),
            blue_bounds(cap, blue_rows(cap, y as int), y * w, if w > 0 { w - 1 } else { 0 }, if y > 0 { y - 1 } else { 0 }),
        decreases h - y,
    {
        assert(y * w + w <= cells) by (nonlinear_arith)
            requires
                y < h,
                cells == w * h,
        ;
        assert((y + 1) * w == y * w + w) by (nonlinear_arith);
        let ghost st0 = blue_rows(cap, y as int);
        let mut x: usize = 0;
        while x < w
            invariant
                cap.wf(),
                w == cap.width,
                h == cap.height,
                0 <= y < h,
                0 <= x <= w,
                y * w + w <= cells,
                blue_bounds(cap, st0, y * w, if w > 0 { w - 1 } else { 0 }, if y > 0 { y - 1 } else { 0 }),
                ({
                    let st = blue_row(cap, y as int, x as int, st0);
                    count == st.count && min_x == st.min_x && min_y == st.min_y && max_x == st.max_x && max_y == st.max_y
                }),
                blue_bounds(cap, blue_row(cap, y as int, x as int, st0), y * w + x, if w > 0 { w - 1 } else { 0 }, y as int),
            decreases w - x,
        {
            let p = cap.get(x, y);
            if p[2] >= 150 && p[1] >= 90 && p[0] <= 120 && p[2] as u16 > p[0] as u16 + 45 {
                count += 1;
                if x < min_x {
                    min_x = x;
                }
                if y < min_y {
                    min_y = y;
                }
                if x > max_x {
                    max_x = x;
                }
                if y > max_y {
                    max_y = y;
                }
            }
            x += 1;
        }
        y += 1;
    }
    if count < 250 {
        return None;
    }
    let bw = max_x - min_x + 1;
    let bh = max_y - min_y + 1;
    if bw < 28 || bw > 70 || bh < 28 || bh > 70 {
        return None;
    }
    let cx = region.x1 + ((min_x + max_x) / 2) as i32;
    let cy = region.y1 + ((min_y + max_y) / 2) as i32;
    Some((cx, cy))
}

// ── Where the browser is ────────────────────────────────────────────────────

/// What the active tab's URL tells about the page.
#[derive(Clone, Copy, Debug, PartialEq, Eq, Structural)]
pub enum UrlClass {
    Home,
    InChat,
    OffSite,
    Unknown,
}

/// The class of a lowercased URL.
pub open spec fn deepseek_url_class(l: Seq<char>) -> UrlClass {
    if !has_substr(l, "chat.deepseek.com"@) {
        UrlClass::OffSite
    } else if has_substr(l, "/chat/"@) || has_substr(l, "/a/chat/"@) {
        UrlClass::InChat
    } else {
        UrlClass::Home
    }
}

/// Classify the active tab from the result of reading its URL: the URL is
/// lowercased, then looked at for DeepSeek's host and a conversation path.
pub fn classify_url(url: &Result<String, String>) -> (c: UrlClass)
    ensures
        c == match url {
            Ok(u) => deepseek_url_class(lower_text(u@)),
            Err(_) => UrlClass::Unknown,
        },
{
    match url {
        Ok(u) => {
            let lower = to_lowercase(u.as_str());
            let l = lower.as_str();
            if !str_contains(l, "chat.deepseek.com") {
                return UrlClass::OffSite;
            }
            if str_contains(l, "/chat/") || str_contains(l, "/a/chat/") {
                UrlClass::InChat
            } else {
                UrlClass::Home
            }
        },
        Err(_) => UrlClass::Unknown,
    }
}

} // verus!
