//! Reading template matches in DeepSeek's attachment strip and composer:
//! the rightmost attachment chip, the "server busy" chip, and the
//! paperclip button.
use vstd::prelude::*;
use crate::adapter::Region;

verus! {

/// A template match: its centre on screen, and its score as an integer
/// that orders matches as the matcher's scores do.
#[derive(Clone, Copy, Debug, PartialEq, Eq, Structural)]
pub struct ScreenHit {
    pub x: i32,
    pub y: i32,
    pub score: u32,
}

/// More matches than this in the chip strip is the template matching
/// uniform dark background: noise.
pub const MAX_PLAUSIBLE_CHIP_HITS: usize = 12;

/// The first match furthest right.
pub open spec fn rightmost(s: Seq<ScreenHit>) -> Option<ScreenHit>
    decreases s.len(),
{
    if s.len() == 0 {
        None
    } else {
        match rightmost(s.drop_last()) {
            Some(b) => if s.last().x > b.x { Some(s.last()) } else { Some(b) },
            None => Some(s.last()),
        }
    }
}

pub open spec fn centre_of(h: Option<ScreenHit>) -> Option<(i32, i32)> {
    match h {
        Some(b) => Some((b.x, b.y)),
        None => None,
    }
}

/// The rightmost attachment chip among the chip-icon matches (all
/// templates, in order), unless there are implausibly many.
pub fn rightmost_chip(hits: &Vec<ScreenHit>) -> (c: Option<(i32, i32)>)
    ensures
        c == (if hits@.len() > MAX_PLAUSIBLE_CHIP_HITS { None } else { centre_of(rightmost(hits@)) }),
{
    if hits.len() > MAX_PLAUSIBLE_CHIP_HITS {
        return None;
    }
    let mut best: Option<ScreenHit> = None;
    let mut i: usize = 0;
    while i < hits.len()
        invariant
            i <= hits.len(),
            best == rightmost(hits@.take(i as int)),
        decreases hits.len() - i,
    {
        proof {
            assert(hits@.take(i + 1).drop_last() =~= hits@.take(i as int));
        }
        let h = hits[i];
        match best {
            Some(b) => {
                if h.x > b.x {
                    best = Some(h);
                }
            },
            None => {
                best = Some(h);
            },
        }
        i += 1;
    }
    proof {
        assert(hits@.take(hits.len() as int) =~= hits@);
    }
    match best {
        Some(b) => Some((b.x, b.y)),
        None => None,
    }
}

/// Some "server busy" template matched a plausible number of times.
pub open spec fn busy_seen(counts: Seq<usize>) -> bool {
    exists|i: int| 0 <= i < counts.len() && 1 <= #[trigger] counts[i] <= MAX_PLAUSIBLE_CHIP_HITS
}

/// Whether the chip strip shows the "server busy" chip, from how many
/// matches each template had.
pub fn busy_chip_seen(counts: &Vec<usize>) -> (b: bool)
    ensures
        b == busy_seen(counts@),
{
    let mut i: usize = 0;
    while i < counts.len()
        invariant
            i <= counts.len(),
            forall|k: int| 0 <= k < i ==> !(1 <= #[trigger] counts@[k] <= MAX_PLAUSIBLE_CHIP_HITS),
        decreases counts.len() - i,
    {
        if counts[i] >= 1 && counts[i] <= MAX_PLAUSIBLE_CHIP_HITS {
            return true;
        }
        i += 1;
    }
    false
}

/// In the in-chat composer (band starting at row 850 or lower) matches in
/// the band's top 35 rows are false positives above the New Chat pill.
pub open spec fn attach_hit_skipped(region: Region, h: ScreenHit) -> bool {
    region.y1 >= 850 && h.y < region.y1 + 35
}

/// The first best-scored match that is not skipped.
pub open spec fn best_attach(region: Region, s: Seq<ScreenHit>) -> Option<ScreenHit>
    decreases s.len(),
{
    if s.len() == 0 {
        None
    } else {
        let prev = best_attach(region, s.drop_last());
        let h = s.last();
        if attach_hit_skipped(region, h) {
            prev
        } else {
            match prev {
                Some(b) => if h.score > b.score { Some(h) } else { Some(b) },
                None => Some(h),
            }
        }
    }
}

/// The paperclip button among the attach-template matches of a scan of
/// `region` (all templates, in order).
pub fn best_attach_hit(region: Region, hits: &Vec<ScreenHit>) -> (c: Option<(i32, i32)>)
    ensures
        c == centre_of(best_attach(region, hits@)),
{
    let mut best: Option<ScreenHit> = None;
    let mut i: usize = 0;
    while i < hits.len()
        invariant
            i <= hits.len(),
            best == best_attach(region, hits@.take(i as int)),
        decreases hits.len() - i,
    {
        proof {
            assert(hits@.take(i + 1).drop_last() =~= hits@.take(i as int));
        }
        let h = hits[i];
        let skipped = region.y1 >= 850 && (h.y as i64) < (region.y1 as i64) + 35;
        if !skipped {
            match best {
                Some(b) => {
                    if h.score > b.score {
                        best = Some(h);
                    }
                },
                None => {
                    best = Some(h);
                },
            }
        }
        i += 1;
    }
    proof {
        assert(hits@.take(hits.len() as int) =~= hits@);
    }
    match best {
        Some(b) => Some((b.x, b.y)),
        None => None,
    }
}

/// The rightmost chip is a match, and no match lies further right.
pub proof fn law_rightmost_is_furthest_right(s: Seq<ScreenHit>)
    ensures
        match rightmost(s) {
            Some(b) => s.contains(b) && forall|i: int| 0 <= i < s.len() ==> #[trigger] s[i].x <= b.x,
            None => s.len() == 0,
        },
    decreases s.len(),
{
    if s.len() > 0 {
        let t = s.drop_last();
        law_rightmost_is_furthest_right(t);
        match rightmost(t) {
            Some(b) => {
                let j = choose|j: int| 0 <= j < t.len() && t[j] == b;
                assert(s[j] == b);
            },
            None => {},
        }
        assert(s[s.len() - 1] == s.last());
        assert forall|i: int| 0 <= i < s.len() - 1 implies s[i] == t[i] by {}
    }
}

/// The paperclip chosen is a match that is not skipped, and no match that
/// is not skipped scored better.
pub proof fn law_attach_scores_highest(region: Region, s: Seq<ScreenHit>)
    ensures
        match best_attach(region, s) {
            Some(b) => s.contains(b) && !attach_hit_skipped(region, b) && forall|i: int|
                0 <= i < s.len() && !attach_hit_skipped(region, #[trigger] s[i]) ==> s[i].score <= b.score,
            None => forall|i: int| 0 <= i < s.len() ==> attach_hit_skipped(region, #[trigger] s[i]),
        },
    decreases s.len(),
{
    if s.len() > 0 {
        let t = s.drop_last();
        law_attach_scores_highest(region, t);
        match best_attach(region, t) {
            Some(b) => {
                let j = choose|j: int| 0 <= j < t.len() && t[j] == b;
                assert(s[j] == b);
            },
            None => {},
        }
        assert(s[s.len() - 1] == s.last());
        assert forall|i: int| 0 <= i < s.len() - 1 implies s[i] == t[i] by {}
    }
}

/// Where to hover to reveal a chip's close (×) button, in order: on the
/// chip's icon, a little up and left, and high in the middle of the chip.
pub open spec fn hover_targets_spec(c: (i32, i32)) -> Seq<(int, int)> {
    seq![(c.0 as int, c.1 as int), (c.0 - 5, c.1 - 10), (c.0 + 60, c.1 - 18)]
}

/// Where the × renders: the chip's top-right corner, right of its icon.
pub open spec fn close_search_spec(c: (i32, i32)) -> Region {
    Region { x1: (c.0 + 100) as i32, y1: (c.1 - 35) as i32, x2: (c.0 + 260) as i32, y2: (c.1 + 5) as i32 }
}

/// The hover points and the × search region for the chip whose icon is
/// at `icon`.
pub fn chip_close_search(icon: (i32, i32)) -> (r: (Vec<(i32, i32)>, Region))
    requires
        icon.0 - 5 >= i32::MIN,
        icon.0 + 260 <= i32::MAX,
        icon.1 - 35 >= i32::MIN,
        icon.1 + 5 <= i32::MAX,
    ensures
        r.0@.len() == 3,
        forall|i: int| 0 <= i < 3 ==> #[trigger] r.0@[i].0 == hover_targets_spec(icon)[i].0
            && r.0@[i].1 == hover_targets_spec(icon)[i].1,
        r.1 == close_search_spec(icon),
{
    let (x, y) = icon;
    let v = vec![(x, y), (x - 5, y - 10), (x + 60, y - 18)];
    (v, Region { x1: x + 100, y1: y - 35, x2: x + 260, y2: y + 5 })
}

} // verus!
