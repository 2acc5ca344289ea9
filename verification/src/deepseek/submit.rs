//! Sending on DeepSeek and reading the answer: which send-arrow match to
//! click, whether the send went through (the URL moved to a chat, the input
//! emptied, or the stop square showed), and which copy button is the
//! latest response's.
use vstd::prelude::*;
use crate::adapter::{AdapterError, Region, center_spec, region_center};
use crate::matrix::GrayMatrix;
use crate::stats::{PixelStats, variance_above, variances_combo};
use crate::text::{chars_eq, chars_of, has_substr, str_contains};

verus! {

/// The send opened a chat: the URL was known, changed, and is a chat's.
pub open spec fn moved_to_chat(pre: Seq<char>, post: Seq<char>) -> bool {
    pre.len() > 0 && post != pre && has_substr(post, "/chat/"@)
}

pub fn url_moved_to_chat(pre: &str, post: &str) -> (b: bool)
    ensures
        b == moved_to_chat(pre@, post@),
{
    let a = chars_of(pre);
    if a.len() == 0 {
        return false;
    }
    let z = chars_of(post);
    if chars_eq(&a, &z) {
        return false;
    }
    str_contains(post, "/chat/")
}

/// The input's text was consumed: its variance was above 20 and fell below
/// 65 % of that. `pre` and `post` capture the same input.
pub open spec fn input_consumed_spec(pre: Seq<u8>, post: Seq<u8>) -> bool {
    variance_above(pre, 20) && !variances_combo(post, pre, 100, 65, 0)
}

pub fn input_consumed(pre: &GrayMatrix, post: &GrayMatrix) -> (b: bool)
    requires
        pre.data@.len() == post.data@.len(),
    ensures
        b == input_consumed_spec(pre.data@, post.data@),
{
    let a = PixelStats::of_all(&pre.data);
    if a.n == 0 || !a.variance_above(20) {
        return false;
    }
    let z = PixelStats::of_all(&post.data);
    !z.variances_combo_at_least(&a, 100, 65, 0)
}

/// The error when no send button matched in the prompt's regions.
pub fn send_button_missing(in_chat: bool) -> (e: AdapterError)
    ensures
        e matches AdapterError::NotFound { what }
            && what@ == "DeepSeek send button by matrix in "@ + (if in_chat { "follow-up"@ } else { "first"@ })
                + " prompt regions"@,
{
    let mut s = String::from_str("DeepSeek send button by matrix in ");
    if in_chat {
        s.append("follow-up");
    } else {
        s.append("first");
    }
    s.append(" prompt regions");
    AdapterError::NotFound { what: s }
}

/// A send-arrow match: its bounds on screen, and its score as an integer
/// that orders matches as the matcher's scores do.
#[derive(Clone, Copy, Debug, PartialEq, Eq, Structural)]
pub struct ArrowHit {
    pub bounds: Region,
    pub score: u32,
}

/// Only matches on the composer's right rail (from x = 1220) are arrows.
pub open spec fn on_right_rail(h: ArrowHit) -> bool {
    h.bounds.x1 >= 1220
}

/// The arrow's centre row.
pub open spec fn arrow_row(h: ArrowHit) -> int {
    center_spec(h.bounds).1 as int
}

/// `a` wins over `b`: lower on the screen, then better scored.
pub open spec fn arrow_beats(a: ArrowHit, b: ArrowHit) -> bool {
    arrow_row(a) > arrow_row(b) || (arrow_row(a) == arrow_row(b) && a.score > b.score)
}

/// The first right-rail match that no other beats.
pub open spec fn lowest_arrow(s: Seq<ArrowHit>) -> Option<ArrowHit>
    decreases s.len(),
{
    if s.len() == 0 {
        None
    } else {
        let prev = lowest_arrow(s.drop_last());
        let h = s.last();
        if !on_right_rail(h) {
            prev
        } else {
            match prev {
                Some(b) => if arrow_beats(h, b) { Some(h) } else { Some(b) },
                None => Some(h),
            }
        }
    }
}

/// Where to click Send among the send-arrow matches: the lowest right-rail
/// match, the better scored of equally low ones, the first of equals.
pub fn send_arrow_target(hits: &Vec<ArrowHit>) -> (p: Option<(i32, i32)>)
    requires
        forall|i: int| 0 <= i < hits@.len() ==> i32::MIN <= #[trigger] hits@[i].bounds.x1 + hits@[i].bounds.x2 <= i32::MAX
            && i32::MIN <= hits@[i].bounds.y1 + hits@[i].bounds.y2 <= i32::MAX,
    ensures
        p == (match lowest_arrow(hits@) {
            Some(b) => Some(center_spec(b.bounds)),
            None => None,
        }),
{
    let mut best: Option<ArrowHit> = None;
    let mut i: usize = 0;
    while i < hits.len()
        invariant
            i <= hits.len(),
            forall|k: int| 0 <= k < hits@.len() ==> i32::MIN <= #[trigger] hits@[k].bounds.x1 + hits@[k].bounds.x2
                <= i32::MAX && i32::MIN <= hits@[k].bounds.y1 + hits@[k].bounds.y2 <= i32::MAX,
            best == lowest_arrow(hits@.take(i as int)),
            match best {
                Some(b) => i32::MIN <= b.bounds.x1 + b.bounds.x2 <= i32::MAX && i32::MIN <= b.bounds.y1 + b.bounds.y2
                    <= i32::MAX,
                None => true,
            },
        decreases hits.len() - i,
    {
        proof {
            assert(hits@.take(i + 1).drop_last() =~= hits@.take(i as int));
        }
        let h = hits[i];
        assert(i32::MIN <= hits@[i as int].bounds.x1 + hits@[i as int].bounds.x2 <= i32::MAX);
        if h.bounds.x1 >= 1220 {
            match best {
                Some(b) => {
                    let hy = region_center(h.bounds).1;
                    let by = region_center(b.bounds).1;
                    if hy > by || (hy == by && h.score > b.score) {
                        best = Some(h);
                    }
                },
                None => {
                    best = Some(h);
                },
            }
        }
        i += 1;
    }
    proof {
        assert(hits@.take(hits.len() as int) =~= hits@);
    }
    match best {
        Some(b) => Some(region_center(b.bounds)),
        None => None,
    }
}

/// The latest response's copy button: among the copy-button matches in the
/// 500..=520 column, the last of the lowest.
pub open spec fn latest_copy(s: Seq<(i32, i32)>) -> Option<(i32, i32)>
    decreases s.len(),
{
    if s.len() == 0 {
        None
    } else {
        let prev = latest_copy(s.drop_last());
        let h = s.last();
        if !(500 <= h.0 <= 520) {
            prev
        } else {
            match prev {
                Some(b) => if h.1 >= b.1 { Some(h) } else { Some(b) },
                None => Some(h),
            }
        }
    }
}

pub fn latest_copy_button(hits: &Vec<(i32, i32)>) -> (p: Option<(i32, i32)>)
    ensures
        p == latest_copy(hits@),
{
    let mut best: Option<(i32, i32)> = None;
    let mut i: usize = 0;
    while i < hits.len()
        invariant
            i <= hits.len(),
            best == latest_copy(hits@.take(i as int)),
        decreases hits.len() - i,
    {
        proof {
            assert(hits@.take(i + 1).drop_last() =~= hits@.take(i as int));
        }
        let h = hits[i];
        if 500 <= h.0 && h.0 <= 520 {
            match best {
                Some(b) => {
                    if h.1 >= b.1 {
                        best = Some(h);
                    }
                },
                None => {
                    best = Some(h);
                },
            }
        }
        i += 1;
    }
    proof {
        assert(hits@.take(hits.len() as int) =~= hits@);
    }
    best
}

} // verus!
