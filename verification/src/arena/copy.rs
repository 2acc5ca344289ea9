//! Copying a response: which footers to search, and which copy-button hits
//! to click in text mode and in what order.
use vstd::prelude::*;
use crate::adapter::Region;
use crate::arena::layout::max_i;
use crate::arena::regions::{Regions, scale_coord_pub, scale_coord_spec};

verus! {

/// The footers searched for the copy button: the in-chat footer first in
/// a conversation, the fresh-page footer first otherwise.
pub fn footer_regions(r: &Regions, in_chat: bool) -> (f: (Region, Region))
    ensures
        f == (if in_chat {
            (r.message_footer_inchat, r.message_footer)
        } else {
            (r.message_footer, r.message_footer_inchat)
        }),
{
    if in_chat {
        (r.message_footer_inchat, r.message_footer)
    } else {
        (r.message_footer, r.message_footer_inchat)
    }
}

// ── Ranking text-mode copy buttons ──────────────────────────────────────────

/// A copy-button match in the footer strip: its centre on screen, and its
/// score as an integer that orders matches as the matcher's scores do.
#[derive(Clone, Copy, Debug, PartialEq, Eq, Structural)]
pub struct CopyHit {
    pub x: i32,
    pub y: i32,
    pub score: u32,
}

/// Where the text-mode copy button is expected: 63 % across the strip,
/// rounded half away from zero.
pub open spec fn expected_copy_x(scan: Region) -> int {
    scan.x1 + scale_coord_spec((scan.x2 - scan.x1) as i32, 63, 100)
}

/// The lowest match (largest `y`).
pub open spec fn max_hit_y(s: Seq<CopyHit>) -> int
    decreases s.len(),
{
    if s.len() <= 1 {
        s[0].y as int
    } else {
        max_i(max_hit_y(s.drop_last()), s.last().y as int)
    }
}

/// The matches at or below row `lo`, in order.
pub open spec fn at_or_below(s: Seq<CopyHit>, lo: int) -> Seq<CopyHit>
    decreases s.len(),
{
    if s.len() == 0 {
        Seq::empty()
    } else {
        let f = at_or_below(s.drop_last(), lo);
        if s.last().y >= lo { f.push(s.last()) } else { f }
    }
}

pub open spec fn abs_i(v: int) -> int {
    if v < 0 { -v } else { v }
}

/// `a` comes before `b`: nearer the expected column, then lower on the
/// screen, then better scored.
pub open spec fn ranks_before(a: CopyHit, b: CopyHit, ex: int) -> bool {
    let da = abs_i(a.x - ex);
    let db = abs_i(b.x - ex);
    da < db || (da == db && (a.y > b.y || (a.y == b.y && a.score > b.score)))
}

/// `h` inserted into the ranked `s` after every match it does not come
/// before.
pub open spec fn insert_ranked(s: Seq<CopyHit>, h: CopyHit, ex: int) -> Seq<CopyHit>
    decreases s.len(),
{
    if s.len() == 0 {
        seq![h]
    } else if ranks_before(h, s[0], ex) {
        seq![h] + s
    } else {
        seq![s[0]] + insert_ranked(s.drop_first(), h, ex)
    }
}

/// The matches in rank order; matches of equal rank keep their order.
pub open spec fn ranked(s: Seq<CopyHit>, ex: int) -> Seq<CopyHit>
    decreases s.len(),
{
    if s.len() == 0 {
        Seq::empty()
    } else {
        insert_ranked(ranked(s.drop_last(), ex), s.last(), ex)
    }
}

/// Two matches of one button: less than 16 pixels apart across and 12 down.
pub open spec fn near(a: CopyHit, b: CopyHit) -> bool {
    abs_i(a.x - b.x) < 16 && abs_i(a.y - b.y) < 12
}

/// Each match dropped when it is near the last match kept.
pub open spec fn dedup_near(s: Seq<CopyHit>) -> Seq<CopyHit>
    decreases s.len(),
{
    if s.len() == 0 {
        Seq::empty()
    } else {
        let d = dedup_near(s.drop_last());
        if d.len() > 0 && near(s.last(), d.last()) { d } else { d.push(s.last()) }
    }
}

/// The points to click: each match moved by the capture-to-mouse offset.
pub open spec fn click_points(s: Seq<CopyHit>, off: (i32, i32)) -> Seq<(i32, i32)> {
    s.map_values(|h: CopyHit| ((h.x + off.0) as i32, (h.y + off.1) as i32))
}

/// The copy buttons to try, in order: the matches within 28 rows of the
/// lowest one, ranked, with near repeats dropped, at most six.
pub open spec fn text_copy_spec(scan: Region, hits: Seq<CopyHit>, off: (i32, i32)) -> Seq<(i32, i32)> {
    if hits.len() == 0 {
        Seq::empty()
    } else {
        let d = dedup_near(ranked(at_or_below(hits, max_hit_y(hits) - 28), expected_copy_x(scan)));
        click_points(d.take(if d.len() < 6 { d.len() as int } else { 6 }), off)
    }
}

/// The match can be moved by the offset within `i32`.
pub open spec fn offset_fits(h: CopyHit, off: (i32, i32)) -> bool {
    i32::MIN <= h.x + off.0 <= i32::MAX && i32::MIN <= h.y + off.1 <= i32::MAX
}

proof fn lemma_insert_at(s: Seq<CopyHit>, h: CopyHit, ex: int, p: int)
    requires
        0 <= p <= s.len(),
        forall|j: int| 0 <= j < p ==> !ranks_before(h, #[trigger] s[j], ex),
        p < s.len() ==> ranks_before(h, s[p], ex),
    ensures
        insert_ranked(s, h, ex) == s.insert(p, h),
    decreases s.len(),
{
    if s.len() == 0 {
        assert(s.insert(p, h) =~= seq![h]);
    } else if ranks_before(h, s[0], ex) {
        assert(p == 0);
        assert(s.insert(p, h) =~= seq![h] + s);
    } else {
        let t = s.drop_first();
        assert forall|j: int| 0 <= j < p - 1 implies !ranks_before(h, #[trigger] t[j], ex) by {
            assert(t[j] == s[j + 1]);
        }
        lemma_insert_at(t, h, ex, p - 1);
        assert(s.insert(p, h) =~= seq![s[0]] + t.insert(p - 1, h));
    }
}

/// Where `insert_ranked` puts `h`: before the first match it comes before.
pub open spec fn insert_pos(s: Seq<CopyHit>, h: CopyHit, ex: int) -> int
    decreases s.len(),
{
    if s.len() == 0 {
        0
    } else if ranks_before(h, s[0], ex) {
        0
    } else {
        1 + insert_pos(s.drop_first(), h, ex)
    }
}

proof fn lemma_insert_pos(s: Seq<CopyHit>, h: CopyHit, ex: int)
    ensures
        0 <= insert_pos(s, h, ex) <= s.len(),
        forall|j: int| 0 <= j < insert_pos(s, h, ex) ==> !ranks_before(h, #[trigger] s[j], ex),
        insert_pos(s, h, ex) < s.len() ==> ranks_before(h, s[insert_pos(s, h, ex)], ex),
    decreases s.len(),
{
    if s.len() > 0 && !ranks_before(h, s[0], ex) {
        let t = s.drop_first();
        lemma_insert_pos(t, h, ex);
        assert forall|j: int| 0 <= j < insert_pos(s, h, ex) implies !ranks_before(h, #[trigger] s[j], ex) by {
            if j > 0 {
                assert(s[j] == t[j - 1]);
            }
        }
        if insert_pos(s, h, ex) < s.len() {
            assert(s[insert_pos(s, h, ex)] == t[insert_pos(t, h, ex)]);
        }
    }
}

/// No match comes before an earlier one.
pub open spec fn in_rank_order(s: Seq<CopyHit>, ex: int) -> bool {
    forall|i: int, j: int| 0 <= i < j < s.len() ==> !ranks_before(#[trigger] s[j], #[trigger] s[i], ex)
}

proof fn lemma_ranks_before_order(a: CopyHit, b: CopyHit, c: CopyHit, ex: int)
    ensures
        !ranks_before(a, a, ex),
        ranks_before(a, b, ex) && ranks_before(b, c, ex) ==> ranks_before(a, c, ex),
{
}

proof fn lemma_insert_keeps_order(s: Seq<CopyHit>, h: CopyHit, ex: int)
    requires
        in_rank_order(s, ex),
    ensures
        in_rank_order(insert_ranked(s, h, ex), ex),
{
    let p = insert_pos(s, h, ex);
    lemma_insert_pos(s, h, ex);
    lemma_insert_at(s, h, ex, p);
    let r = s.insert(p, h);
    assert forall|i: int, j: int| 0 <= i < j < r.len() implies !ranks_before(#[trigger] r[j], #[trigger] r[i], ex) by {
        if i == p && j > p {
            let a = s[j - 1];
            lemma_ranks_before_order(a, h, s[p], ex);
            lemma_ranks_before_order(s[p], s[p], s[p], ex);
            if j - 1 > p {
                assert(!ranks_before(s[j - 1], s[p], ex));
            }
        }
    }
}

/// The ranking orders the matches: no match comes before one ranked
/// earlier.
pub proof fn law_ranked_in_order(s: Seq<CopyHit>, ex: int)
    ensures
        in_rank_order(ranked(s, ex), ex),
    decreases s.len(),
{
    if s.len() > 0 {
        law_ranked_in_order(s.drop_last(), ex);
        lemma_insert_keeps_order(ranked(s.drop_last(), ex), s.last(), ex);
    }
}

/// No kept match is near the one kept just before it.
pub proof fn law_kept_candidates_spaced(s: Seq<CopyHit>)
    ensures
        forall|i: int| 0 <= i < dedup_near(s).len() - 1 ==> !near(#[trigger] dedup_near(s)[i + 1], dedup_near(s)[i]),
    decreases s.len(),
{
    if s.len() > 0 {
        law_kept_candidates_spaced(s.drop_last());
        let d = dedup_near(s.drop_last());
        assert forall|i: int| 0 <= i < dedup_near(s).len() - 1 implies !near(#[trigger] dedup_near(s)[i + 1], dedup_near(s)[i]) by {
            if i + 1 < d.len() {
                assert(dedup_near(s)[i + 1] == d[i + 1]);
                assert(dedup_near(s)[i] == d[i]);
            }
        }
    }
}

/// The ranking only reorders: it holds the same matches, each as often.
pub proof fn law_ranked_is_permutation(s: Seq<CopyHit>, ex: int)
    ensures
        ranked(s, ex).to_multiset() == s.to_multiset(),
    decreases s.len(),
{
    if s.len() > 0 {
        let t = s.drop_last();
        law_ranked_is_permutation(t, ex);
        let r = ranked(t, ex);
        let h = s.last();
        lemma_insert_pos(r, h, ex);
        lemma_insert_at(r, h, ex, insert_pos(r, h, ex));
        vstd::seq_lib::to_multiset_insert(r, insert_pos(r, h, ex), h);
        vstd::seq_lib::to_multiset_build(t, h);
        assert(t.push(h) =~= s);
        assert(ranked(s, ex) == insert_ranked(r, h, ex));
        assert(ranked(s, ex).to_multiset() == r.to_multiset().insert(h));
        assert(s.to_multiset() == t.to_multiset().insert(h));
    } else {
        assert(ranked(s, ex) =~= s);
    }
}

fn dist(x: i32, ex: i64) -> (d: i64)
    requires
        i32::MIN <= ex <= i32::MAX,
    ensures
        d == abs_i(x - ex),
{
    let v = x as i64 - ex;
    if v < 0 { -v } else { v }
}

fn ranks_before_exec(a: CopyHit, b: CopyHit, ex: i64) -> (r: bool)
    requires
        i32::MIN <= ex <= i32::MAX,
    ensures
        r == ranks_before(a, b, ex as int),
{
    let da = dist(a.x, ex);
    let db = dist(b.x, ex);
    da < db || (da == db && (a.y > b.y || (a.y == b.y && a.score > b.score)))
}

fn near_exec(a: CopyHit, b: CopyHit) -> (r: bool)
    ensures
        r == near(a, b),
{
    let dx = dist(a.x, b.x as i64);
    let dy = dist(a.y, b.y as i64);
    dx < 16 && dy < 12
}

/// The copy-button matches of the text-mode footer strip `scan`, in the
/// order to click them, as mouse points.
pub fn text_copy_candidates(scan: Region, hits: &Vec<CopyHit>, off: (i32, i32)) -> (r: Vec<(i32, i32)>)
    requires
        i32::MIN <= scan.x2 - scan.x1 <= i32::MAX,
        i32::MIN <= expected_copy_x(scan) <= i32::MAX,
        forall|i: int| 0 <= i < hits@.len() ==> offset_fits(#[trigger] hits@[i], off),
    ensures
        r@ == text_copy_spec(scan, hits@, off),
{
    let mut out: Vec<(i32, i32)> = Vec::new();
    if hits.len() == 0 {
        assert(out@ =~= text_copy_spec(scan, hits@, off));
        return out;
    }
    // The lowest match.
    let mut max_y: i32 = hits[0].y;
    let mut i: usize = 1;
    while i < hits.len()
        invariant
            1 <= i <= hits.len(),
            max_y == max_hit_y(hits@.take(i as int)),
        decreases hits.len() - i,
    {
        proof {
            assert(hits@.take(i + 1).drop_last() =~= hits@.take(i as int));
        }
        if hits[i].y > max_y {
            max_y = hits[i].y;
        }
        i += 1;
    }
    proof {
        assert(hits@.take(hits.len() as int) =~= hits@);
    }
    let lo: i64 = max_y as i64 - 28;
    let w = scan.x2 - scan.x1;
    let ex: i64 = scan.x1 as i64 + scale_coord_pub(w, 63, 100) as i64;
    let ghost exi = expected_copy_x(scan);
    assert(ex == exi);
    // Rank the matches near the bottom, inserting each after every match
    // it does not come before.
    let mut rk: Vec<CopyHit> = Vec::new();
    let mut i: usize = 0;
    while i < hits.len()
        invariant
            i <= hits.len(),
            i32::MIN <= ex <= i32::MAX,
            ex == exi,
            forall|k: int| 0 <= k < hits@.len() ==> offset_fits(#[trigger] hits@[k], off),
            rk@ == ranked(at_or_below(hits@.take(i as int), lo as int), exi),
            forall|k: int| 0 <= k < rk@.len() ==> offset_fits(#[trigger] rk@[k], off),
        decreases hits.len() - i,
    {
        let h = hits[i];
        let ghost f = at_or_below(hits@.take(i as int), lo as int);
        proof {
            assert(hits@.take(i + 1).drop_last() =~= hits@.take(i as int));
            assert(hits@.take(i + 1).last() == h);
            assert(f.push(h).drop_last() =~= f);
        }
        if h.y as i64 >= lo {
            let mut p: usize = 0;
            while p < rk.len() && !ranks_before_exec(h, rk[p], ex)
                invariant
                    p <= rk.len(),
                    i32::MIN <= ex <= i32::MAX,
                    forall|j: int| 0 <= j < p ==> !ranks_before(h, #[trigger] rk@[j], ex as int),
                decreases rk.len() - p,
            {
                p += 1;
            }
            proof {
                lemma_insert_at(rk@, h, exi, p as int);
            }
            rk.insert(p, h);
        }
        i += 1;
    }
    proof {
        assert(hits@.take(hits.len() as int) =~= hits@);
    }
    // Drop near repeats of the last match kept.
    let mut d: Vec<CopyHit> = Vec::new();
    let mut k: usize = 0;
    while k < rk.len()
        invariant
            k <= rk.len(),
            d@ == dedup_near(rk@.take(k as int)),
            forall|j: int| 0 <= j < rk@.len() ==> offset_fits(#[trigger] rk@[j], off),
            forall|j: int| 0 <= j < d@.len() ==> offset_fits(#[trigger] d@[j], off),
        decreases rk.len() - k,
    {
        proof {
            assert(rk@.take(k + 1).drop_last() =~= rk@.take(k as int));
        }
        let h = rk[k];
        let dup = d.len() > 0 && near_exec(h, d[d.len() - 1]);
        if !dup {
            d.push(h);
        }
        k += 1;
    }
    proof {
        assert(rk@.take(rk.len() as int) =~= rk@);
    }
    let n = if d.len() < 6 { d.len() } else { 6 };
    let mut j: usize = 0;
    while j < n
        invariant
            j <= n <= d.len(),
            forall|q: int| 0 <= q < d@.len() ==> offset_fits(#[trigger] d@[q], off),
            out@ == click_points(d@.take(j as int), off),
        decreases n - j,
    {
        let h = d[j];
        assert(offset_fits(d@[j as int], off));
        out.push((h.x + off.0, h.y + off.1));
        proof {
            assert(click_points(d@.take(j + 1), off) =~= click_points(d@.take(j as int), off).push((
                (h.x + off.0) as i32,
                (h.y + off.1) as i32,
            )));
        }
        j += 1;
    }
    assert(out@ =~= text_copy_spec(scan, hits@, off));
    out
}

} // verus!
