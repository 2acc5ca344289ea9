//! Where the Arena adapter pastes a prompt and where it clicks to send it.
use vstd::prelude::*;
use crate::adapter::{Region, center_spec, region_center};
use crate::arena::regions::{ArenaSurface, Regions};
use crate::matrix::GrayMatrix;
use crate::stats::{PixelStats, variance_above, variance_at_least, variances_combo};
use crate::text::{has_substr, str_contains};

verus! {

/// The input the prompt goes into: the code-mode input when the code panel
/// is open in a conversation, the bottom input in a conversation, the
/// centred input on a fresh page.
pub open spec fn paste_focus_spec(r: Regions, in_chat: bool, code_panel_open: bool) -> Region {
    if code_panel_open {
        r.input_focus_point_code_mode
    } else if in_chat {
        r.input_focus_point_inchat
    } else {
        r.input_focus_point
    }
}

/// One place to click and paste, and whether it is the code-mode input.
#[derive(Clone, Copy, Debug, PartialEq, Eq, Structural)]
pub struct PasteAttempt {
    pub x: i32,
    pub y: i32,
    pub code_mode: bool,
}

/// A centre and the same point 8 and 16 pixels up and down, in that order.
pub open spec fn around(c: (i32, i32), code_mode: bool) -> Seq<PasteAttempt> {
    seq![
        PasteAttempt { x: c.0, y: c.1, code_mode },
        PasteAttempt { x: c.0, y: (c.1 - 8) as i32, code_mode },
        PasteAttempt { x: c.0, y: (c.1 + 8) as i32, code_mode },
        PasteAttempt { x: c.0, y: (c.1 - 16) as i32, code_mode },
        PasteAttempt { x: c.0, y: (c.1 + 16) as i32, code_mode },
    ]
}

/// The paste attempts in order: the input's centre and its vertical
/// offsets; then, in a conversation, the code-mode input's centre and its
/// offsets (a paste there is in code mode).
pub open spec fn paste_attempts_spec(r: Regions, in_chat: bool, code_panel_open: bool) -> Seq<PasteAttempt> {
    let first = around(center_spec(paste_focus_spec(r, in_chat, code_panel_open)), code_panel_open);
    if in_chat {
        first + around(center_spec(r.input_focus_point_code_mode), true)
    } else {
        first
    }
}

/// The region's centre is a valid point 16 pixels away from both ends of
/// the `i32` range.
pub open spec fn center_fits(g: Region) -> bool {
    &&& i32::MIN <= g.x1 + g.x2 <= i32::MAX
    &&& i32::MIN <= g.y1 + g.y2 <= i32::MAX
    &&& i32::MIN + 16 <= center_spec(g).1 <= i32::MAX - 16
}

fn push_around(v: &mut Vec<PasteAttempt>, c: (i32, i32), code_mode: bool)
    requires
        i32::MIN + 16 <= c.1 <= i32::MAX - 16,
    ensures
        final(v)@ == old(v)@ + around(c, code_mode),
{
    v.push(PasteAttempt { x: c.0, y: c.1, code_mode });
    v.push(PasteAttempt { x: c.0, y: c.1 - 8, code_mode });
    v.push(PasteAttempt { x: c.0, y: c.1 + 8, code_mode });
    v.push(PasteAttempt { x: c.0, y: c.1 - 16, code_mode });
    v.push(PasteAttempt { x: c.0, y: c.1 + 16, code_mode });
    assert(final(v)@ =~= old(v)@ + around(c, code_mode));
}

pub fn paste_attempts(r: &Regions, in_chat: bool, code_panel_open: bool) -> (v: Vec<PasteAttempt>)
    requires
        center_fits(r.input_focus_point),
        center_fits(r.input_focus_point_inchat),
        center_fits(r.input_focus_point_code_mode),
    ensures
        v@ == paste_attempts_spec(*r, in_chat, code_panel_open),
{
    let focus = if code_panel_open {
        r.input_focus_point_code_mode
    } else if in_chat {
        r.input_focus_point_inchat
    } else {
        r.input_focus_point
    };
    let mut v: Vec<PasteAttempt> = Vec::new();
    push_around(&mut v, region_center(focus), code_panel_open);
    if in_chat {
        push_around(&mut v, region_center(r.input_focus_point_code_mode), true);
    }
    proof {
        assert(v@ =~= paste_attempts_spec(*r, in_chat, code_panel_open));
    }
    v
}

/// The send button's calibrated region.
pub open spec fn send_region_spec(r: Regions, in_chat: bool) -> Region {
    if in_chat {
        r.send_or_stop_inchat
    } else {
        r.send_or_stop
    }
}

pub fn send_region(r: &Regions, in_chat: bool) -> (g: Region)
    ensures
        g == send_region_spec(*r, in_chat),
{
    if in_chat {
        r.send_or_stop_inchat
    } else {
        r.send_or_stop
    }
}

/// `p` before `q`, comparing `x` then `y`.
pub open spec fn point_lt(p: (i32, i32), q: (i32, i32)) -> bool {
    p.0 < q.0 || (p.0 == q.0 && p.1 < q.1)
}

/// Where to click Send, in order. After a paste in code mode or in a
/// conversation: only the send icon found along the prompt (if any). On a
/// fresh page: the icon found by matching (if any) and the calibrated
/// button's centre, sorted, without repeats.
pub open spec fn send_candidates_spec(
    pasted_at_code_mode: bool,
    in_chat: bool,
    found_in_chat: Option<(i32, i32)>,
    found_fresh: Option<(i32, i32)>,
    calibrated: (i32, i32),
) -> Seq<(i32, i32)> {
    if pasted_at_code_mode || in_chat {
        match found_in_chat {
            Some(p) => seq![p],
            None => Seq::empty(),
        }
    } else {
        match found_fresh {
            None => seq![calibrated],
            Some(p) => if p == calibrated {
                seq![p]
            } else if point_lt(p, calibrated) {
                seq![p, calibrated]
            } else {
                seq![calibrated, p]
            },
        }
    }
}

pub fn send_candidates(
    pasted_at_code_mode: bool,
    in_chat: bool,
    found_in_chat: Option<(i32, i32)>,
    found_fresh: Option<(i32, i32)>,
    calibrated: (i32, i32),
) -> (v: Vec<(i32, i32)>)
    ensures
        v@ == send_candidates_spec(pasted_at_code_mode, in_chat, found_in_chat, found_fresh, calibrated),
{
    let mut v: Vec<(i32, i32)> = Vec::new();
    if pasted_at_code_mode || in_chat {
        if let Some(p) = found_in_chat {
            v.push(p);
        }
    } else {
        match found_fresh {
            None => v.push(calibrated),
            Some(p) => {
                if p.0 == calibrated.0 && p.1 == calibrated.1 {
                    v.push(p);
                } else if p.0 < calibrated.0 || (p.0 == calibrated.0 && p.1 < calibrated.1) {
                    v.push(p);
                    v.push(calibrated);
                } else {
                    v.push(calibrated);
                    v.push(p);
                }
            },
        }
    }
    proof {
        assert(v@ =~= send_candidates_spec(pasted_at_code_mode, in_chat, found_in_chat, found_fresh, calibrated));
    }
    v
}

/// The input whose variance shows whether a send consumed the text: where
/// the paste landed.
pub fn input_measure_region(r: &Regions, pasted_at_code_mode: bool, in_chat: bool) -> (g: Region)
    ensures
        g == paste_focus_spec(*r, in_chat, pasted_at_code_mode),
{
    if pasted_at_code_mode {
        r.input_focus_point_code_mode
    } else if in_chat {
        r.input_focus_point_inchat
    } else {
        r.input_focus_point
    }
}

/// The input's text was consumed by the send: its variance was above 30
/// and fell below half of that. `pre` and `post` capture the same input.
pub open spec fn input_cleared_spec(pre: Seq<u8>, post: Seq<u8>) -> bool {
    variance_above(pre, 30) && !variances_combo(post, pre, 2, 1, 0)
}

pub fn input_cleared(pre: &GrayMatrix, post: &GrayMatrix) -> (b: bool)
    requires
        pre.data@.len() == post.data@.len(),
    ensures
        b == input_cleared_spec(pre.data@, post.data@),
{
    let a = PixelStats::of_all(&pre.data);
    if a.n == 0 || !a.variance_above(30) {
        return false;
    }
    let z = PixelStats::of_all(&post.data);
    !z.variances_combo_at_least(&a, 2, 1, 0)
}

/// A fresh-page send worked when the URL turned into a conversation's.
pub fn url_shows_conversation(url: &str) -> (b: bool)
    ensures
        b == has_substr(url@, "/c/"@),
{
    str_contains(url, "/c/")
}

/// Where the stop button shows once a send started: the in-chat button on
/// the Text surface; the fresh, in-chat and code-mode buttons on Code.
pub fn started_stop_regions(r: &Regions) -> (v: Vec<Region>)
    ensures
        v@ == (if r.surface == ArenaSurface::Text {
            seq![r.send_or_stop_inchat]
        } else {
            seq![r.send_or_stop, r.send_or_stop_inchat, r.send_or_stop_code_mode]
        }),
{
    match r.surface {
        ArenaSurface::Text => vec![r.send_or_stop_inchat],
        ArenaSurface::Code => vec![r.send_or_stop, r.send_or_stop_inchat, r.send_or_stop_code_mode],
    }
}

/// The strip watched while pasting at `(x, y)`: 250 pixels either side and
/// 15 above and below, not left of or above the screen's origin.
pub open spec fn paste_strip_spec(x: i32, y: i32) -> Region {
    Region {
        x1: (if x - 250 >= 0 { x - 250 } else { 0 }) as i32,
        y1: (if y - 15 >= 0 { y - 15 } else { 0 }) as i32,
        x2: (x + 250) as i32,
        y2: (y + 15) as i32,
    }
}

pub fn paste_strip(x: i32, y: i32) -> (g: Region)
    requires
        x - 250 >= i32::MIN,
        x + 250 <= i32::MAX,
        y - 15 >= i32::MIN,
        y + 15 <= i32::MAX,
    ensures
        g == paste_strip_spec(x, y),
{
    Region {
        x1: if x - 250 >= 0 { x - 250 } else { 0 },
        y1: if y - 15 >= 0 { y - 15 } else { 0 },
        x2: x + 250,
        y2: y + 15,
    }
}

/// The paste landed: the strip's variance rose by at least 30, or at
/// least 10 % of its pixels changed (`changed` of them, when both
/// captures for the comparison were taken), or a quiet strip (variance
/// under 100) turned busy (at least 200). `pre` and `post` capture the
/// same strip.
pub open spec fn paste_registered_spec(pre: Seq<u8>, post: Seq<u8>, changed: Option<usize>) -> bool {
    let total = if pre.len() == 0 { 1 } else { pre.len() as int };
    let rose = if pre.len() == 0 { 0 >= 30 } else { variances_combo(post, pre, 1, 1, 30) };
    let diff = match changed {
        Some(c) => 10 * c >= total,
        None => 0 >= 10,
    };
    rose || diff || (variance_at_least(post, 200) && !variance_at_least(pre, 100))
}

pub fn paste_registered(pre: &GrayMatrix, post: &GrayMatrix, changed: Option<usize>) -> (b: bool)
    requires
        pre.data@.len() == post.data@.len(),
    ensures
        b == paste_registered_spec(pre.data@, post.data@, changed),
{
    let a = PixelStats::of_all(&pre.data);
    let z = PixelStats::of_all(&post.data);
    let total: u128 = if a.n == 0 { 1 } else { a.n as u128 };
    let rose = if a.n == 0 { false } else { z.variances_combo_at_least(&a, 1, 1, 30) };
    let diff = match changed {
        Some(c) => 10 * (c as u128) >= total,
        None => false,
    };
    rose || diff || (z.variance_at_least(200) && !a.variance_at_least(100))
}

} // verus!
