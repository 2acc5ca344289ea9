//! Connected bright components of a greyscale capture.
//!
//! A pixel is *lit* when its luma reaches a threshold; two pixels touch when
//! they are 8-neighbours. A component is a maximal set of lit pixels linked
//! by chains of touching lit pixels. `bright_components` lists every
//! component once, in the scan order (row by row) of its first pixel, with
//! its area, luma sum and bounding box.
use vstd::prelude::*;
use crate::matrix::{GrayMatrix, lemma_index_in_bounds};

verus! {

// ── Pixels, paths and components ────────────────────────────────────────────

pub open spec fn in_grid(cap: &GrayMatrix, p: (int, int)) -> bool {
    0 <= p.0 < cap.width && 0 <= p.1 < cap.height
}

/// Pixel `p` lies in the capture and its luma is at least `t`.
pub open spec fn lit(cap: &GrayMatrix, t: int, p: (int, int)) -> bool {
    in_grid(cap, p) && cap.px(p.0, p.1) >= t
}

/// 8-neighbourhood (a pixel touches itself).
pub open spec fn touching(p: (int, int), q: (int, int)) -> bool {
    -1 <= p.0 - q.0 <= 1 && -1 <= p.1 - q.1 <= 1
}

/// A chain of lit pixels, each touching the next.
pub open spec fn is_path(cap: &GrayMatrix, t: int, path: Seq<(int, int)>) -> bool {
    &&& path.len() > 0
    &&& forall|i: int| 0 <= i < path.len() ==> #[trigger] lit(cap, t, path[i])
    &&& forall|i: int| 0 <= i < path.len() - 1 ==> #[trigger] touching(path[i], path[i + 1])
}

/// `p` and `q` lie in the same component.
pub open spec fn linked(cap: &GrayMatrix, t: int, p: (int, int), q: (int, int)) -> bool {
    exists|path: Seq<(int, int)>| #[trigger] is_path(cap, t, path) && path[0] == p && path.last() == q
}

/// `p` comes before `q` in row-by-row scan order.
pub open spec fn scan_before(p: (int, int), q: (int, int)) -> bool {
    p.1 < q.1 || (p.1 == q.1 && p.0 < q.0)
}

/// Sum of the lumas of the listed pixels.
pub open spec fn luma_sum(cap: &GrayMatrix, m: Seq<(int, int)>) -> int
    decreases m.len(),
{
    if m.len() == 0 {
        0
    } else {
        luma_sum(cap, m.drop_last()) + cap.px(m.last().0, m.last().1)
    }
}

/// A component's statistics, and its first pixel in scan order.
#[derive(Clone, Copy, Debug)]
pub struct Blob {
    pub seed_x: usize,
    pub seed_y: usize,
    pub min_x: usize,
    pub max_x: usize,
    pub min_y: usize,
    pub max_y: usize,
    pub area: usize,
    pub sum: u128,
}

impl Blob {
    pub open spec fn seed(&self) -> (int, int) {
        (self.seed_x as int, self.seed_y as int)
    }
}

/// `(min_x, max_x, min_y, max_y)` is the smallest box holding the listed pixels.
pub open spec fn tight_box(m: Seq<(int, int)>, min_x: int, max_x: int, min_y: int, max_y: int) -> bool {
    &&& forall|i: int| 0 <= i < m.len() ==> min_x <= #[trigger] m[i].0 <= max_x && min_y <= m[i].1 <= max_y
    &&& exists|i: int| 0 <= i < m.len() && #[trigger] m[i].0 == min_x
    &&& exists|i: int| 0 <= i < m.len() && #[trigger] m[i].0 == max_x
    &&& exists|i: int| 0 <= i < m.len() && #[trigger] m[i].1 == min_y
    &&& exists|i: int| 0 <= i < m.len() && #[trigger] m[i].1 == max_y
}

/// `m` lists every pixel of the component of `s` exactly once.
pub open spec fn enumerates(cap: &GrayMatrix, t: int, s: (int, int), m: Seq<(int, int)>) -> bool {
    &&& m.no_duplicates()
    &&& forall|q: (int, int)| #[trigger] m.contains(q) <==> linked(cap, t, s, q)
}

/// `b` describes the component whose first pixel is `b.seed()`.
pub open spec fn blob_of(cap: &GrayMatrix, t: int, b: Blob) -> bool {
    &&& lit(cap, t, b.seed())
    &&& forall|q: (int, int)| #[trigger] linked(cap, t, b.seed(), q) && q != b.seed() ==> scan_before(b.seed(), q)
    &&& exists|m: Seq<(int, int)>| #[trigger] enumerates(cap, t, b.seed(), m)
        && b.area == m.len()
        && b.sum == luma_sum(cap, m)
        && tight_box(m, b.min_x as int, b.max_x as int, b.min_y as int, b.max_y as int)
}

/// `blobs` lists every component of lit pixels once, in scan order of their
/// first pixels.
pub open spec fn is_component_list(cap: &GrayMatrix, t: int, blobs: Seq<Blob>) -> bool {
    &&& forall|i: int| 0 <= i < blobs.len() ==> #[trigger] blob_of(cap, t, blobs[i])
    &&& forall|i: int, j: int| 0 <= i < j < blobs.len() ==> scan_before(#[trigger] blobs[i].seed(), #[trigger] blobs[j].seed())
    &&& forall|p: (int, int)| #[trigger] lit(cap, t, p) ==> exists|i: int| 0 <= i < blobs.len() && #[trigger] linked(cap, t, blobs[i].seed(), p)
}

// ── Facts about `linked` ────────────────────────────────────────────────────

proof fn lemma_linked_refl(cap: &GrayMatrix, t: int, p: (int, int))
    requires
        lit(cap, t, p),
    ensures
        linked(cap, t, p, p),
{
    let path = seq![p];
    assert(is_path(cap, t, path));
}

proof fn lemma_linked_lit(cap: &GrayMatrix, t: int, p: (int, int), q: (int, int))
    requires
        linked(cap, t, p, q),
    ensures
        lit(cap, t, p),
        lit(cap, t, q),
{
    let path = choose|path: Seq<(int, int)>| #[trigger] is_path(cap, t, path) && path[0] == p && path.last() == q;
    assert(lit(cap, t, path[0]));
    assert(lit(cap, t, path[path.len() - 1]));
}

proof fn lemma_linked_step(cap: &GrayMatrix, t: int, p: (int, int), q: (int, int), r: (int, int))
    requires
        linked(cap, t, p, q),
        lit(cap, t, r),
        touching(q, r),
    ensures
        linked(cap, t, p, r),
{
    let path = choose|path: Seq<(int, int)>| #[trigger] is_path(cap, t, path) && path[0] == p && path.last() == q;
    let np = path.push(r);
    assert forall|i: int| 0 <= i < np.len() implies #[trigger] lit(cap, t, np[i]) by {
        if i < path.len() {
            assert(lit(cap, t, path[i]));
        }
    }
    assert forall|i: int| 0 <= i < np.len() - 1 implies #[trigger] touching(np[i], np[i + 1]) by {
        if i < path.len() - 1 {
            assert(touching(path[i], path[i + 1]));
        }
    }
    assert(is_path(cap, t, np));
}

proof fn lemma_linked_sym(cap: &GrayMatrix, t: int, p: (int, int), q: (int, int))
    requires
        linked(cap, t, p, q),
    ensures
        linked(cap, t, q, p),
{
    let path = choose|path: Seq<(int, int)>| #[trigger] is_path(cap, t, path) && path[0] == p && path.last() == q;
    let n = path.len();
    let rp = Seq::new(n, |i: int| path[n - 1 - i]);
    assert forall|i: int| 0 <= i < rp.len() implies #[trigger] lit(cap, t, rp[i]) by {
        assert(lit(cap, t, path[n - 1 - i]));
    }
    assert forall|i: int| 0 <= i < rp.len() - 1 implies #[trigger] touching(rp[i], rp[i + 1]) by {
        assert(touching(path[n - 2 - i], path[n - 2 - i + 1]));
    }
    assert(is_path(cap, t, rp));
}

proof fn lemma_linked_trans(cap: &GrayMatrix, t: int, p: (int, int), q: (int, int), r: (int, int))
    requires
        linked(cap, t, p, q),
        linked(cap, t, q, r),
    ensures
        linked(cap, t, p, r),
{
    let a = choose|path: Seq<(int, int)>| #[trigger] is_path(cap, t, path) && path[0] == p && path.last() == q;
    let b = choose|path: Seq<(int, int)>| #[trigger] is_path(cap, t, path) && path[0] == q && path.last() == r;
    let c = a + b.subrange(1, b.len() as int);
    assert forall|i: int| 0 <= i < c.len() implies #[trigger] lit(cap, t, c[i]) by {
        if i < a.len() {
            assert(lit(cap, t, a[i]));
        } else {
            assert(lit(cap, t, b[i - a.len() + 1]));
        }
    }
    assert forall|i: int| 0 <= i < c.len() - 1 implies #[trigger] touching(c[i], c[i + 1]) by {
        if i < a.len() - 1 {
            assert(touching(a[i], a[i + 1]));
        } else {
            let j = i - a.len() + 1;
            assert(touching(b[j], b[j + 1]));
        }
    }
    assert(is_path(cap, t, c));
    if b.len() == 1 {
        assert(c =~= a);
    }
}

/// A set of lit pixels that contains `s` and every lit neighbour of its
/// members contains the whole component of `s`.
proof fn lemma_closed_holds_component(
    cap: &GrayMatrix,
    t: int,
    member: spec_fn((int, int)) -> bool,
    s: (int, int),
    q: (int, int),
)
    requires
        member(s),
        forall|c: (int, int), r: (int, int)| member(c) && #[trigger] lit(cap, t, r) && #[trigger] touching(c, r) ==> member(r),
        linked(cap, t, s, q),
    ensures
        member(q),
{
    let path = choose|path: Seq<(int, int)>| #[trigger] is_path(cap, t, path) && path[0] == s && path.last() == q;
    lemma_path_members(cap, t, member, path, path.len() - 1);
}

proof fn lemma_path_members(cap: &GrayMatrix, t: int, member: spec_fn((int, int)) -> bool, path: Seq<(int, int)>, i: int)
    requires
        is_path(cap, t, path),
        0 <= i < path.len(),
        member(path[0]),
        forall|c: (int, int), r: (int, int)| member(c) && #[trigger] lit(cap, t, r) && #[trigger] touching(c, r) ==> member(r),
    ensures
        member(path[i]),
    decreases i,
{
    if i > 0 {
        lemma_path_members(cap, t, member, path, i - 1);
        assert(touching(path[i - 1], path[i - 1 + 1]));
        assert(lit(cap, t, path[i]));
    }
}

proof fn lemma_push_no_dup(m: Seq<(int, int)>, x: (int, int))
    requires
        m.no_duplicates(),
        !m.contains(x),
    ensures
        m.push(x).no_duplicates(),
{
    let n = m.push(x);
    assert forall|i: int, j: int| 0 <= i < n.len() && 0 <= j < n.len() && i != j implies n[i] != n[j] by {
        if i < m.len() && j < m.len() {
            assert(n[i] == m[i] && n[j] == m[j]);
        } else if i < m.len() {
            assert(n[i] == m[i]);
            assert(m.contains(m[i]));
        } else {
            assert(n[j] == m[j]);
            assert(m.contains(m[j]));
        }
    }
}

// ── Counting visited flags ──────────────────────────────────────────────────

pub open spec fn count_true(s: Seq<bool>) -> nat
    decreases s.len(),
{
    if s.len() == 0 {
        0
    } else {
        count_true(s.drop_last()) + if s.last() { 1nat } else { 0nat }
    }
}

proof fn lemma_count_true_le(s: Seq<bool>)
    ensures
        count_true(s) <= s.len(),
    decreases s.len(),
{
    if s.len() > 0 {
        lemma_count_true_le(s.drop_last());
    }
}

proof fn lemma_count_true_set(s: Seq<bool>, k: int)
    requires
        0 <= k < s.len(),
        !s[k],
    ensures
        count_true(s.update(k, true)) == count_true(s) + 1,
    decreases s.len(),
{
    let u = s.update(k, true);
    if k == s.len() - 1 {
        assert(u.drop_last() =~= s.drop_last());
    } else {
        assert(u.drop_last() =~= s.drop_last().update(k, true));
        lemma_count_true_set(s.drop_last(), k);
    }
}

/// Row-major indices of distinct pixels differ.
proof fn lemma_index_injective(x1: int, y1: int, x2: int, y2: int, w: int)
    requires
        0 <= x1 < w,
        0 <= x2 < w,
        0 <= y1,
        0 <= y2,
        y1 * w + x1 == y2 * w + x2,
    ensures
        x1 == x2,
        y1 == y2,
{
    if y1 < y2 {
        assert(y1 * w + x1 < y2 * w + x2) by (nonlinear_arith)
            requires
                y1 < y2,
                0 <= x1 < w,
                0 <= x2,
        ;
    } else if y2 < y1 {
        assert(y2 * w + x2 < y1 * w + x1) by (nonlinear_arith)
            requires
                y2 < y1,
                0 <= x2 < w,
                0 <= x1,
        ;
    }
}


// ── Visited flags, one per pixel in row-major order ─────────────────────────

pub open spec fn vis(cap: &GrayMatrix, v: Seq<bool>, p: (int, int)) -> bool {
    v[p.1 * cap.width + p.0]
}

/// Setting the flag of pixel `q` marks `q` and leaves every other pixel as it was.
proof fn lemma_vis_update(cap: &GrayMatrix, v: Seq<bool>, q: (int, int), k: int)
    requires
        in_grid(cap, q),
        v.len() == cap.width * cap.height,
        k == q.1 * cap.width + q.0,
    ensures
        forall|p: (int, int)| in_grid(cap, p) ==> (#[trigger] vis(cap, v.update(k, true), p) <==> vis(cap, v, p) || p == q),
{
    let w = cap.width as int;
    let h = cap.height as int;
    lemma_index_in_bounds(q.0, q.1, w, h);
    assert forall|p: (int, int)| in_grid(cap, p) implies (#[trigger] vis(cap, v.update(k, true), p) <==> vis(cap, v, p) || p == q) by {
        lemma_index_in_bounds(p.0, p.1, w, h);
        if p.1 * w + p.0 == q.1 * w + q.0 {
            lemma_index_injective(p.0, p.1, q.0, q.1, w);
        }
    }
}

/// What the flood fill from `s` starts from: the seed is lit and unvisited,
/// and the visited pixels are closed under touching lit neighbours.
pub open spec fn fill_base(cap: &GrayMatrix, t: int, old_v: Seq<bool>, s: (int, int)) -> bool {
    &&& old_v.len() == cap.width * cap.height
    &&& lit(cap, t, s)
    &&& !vis(cap, old_v, s)
    &&& forall|p: (int, int), q: (int, int)|
        in_grid(cap, p) && #[trigger] vis(cap, old_v, p) && #[trigger] lit(cap, t, q) && touching(p, q) ==> vis(cap, old_v, q)
}

/// Bookkeeping of the fill: `disc` lists the pixels discovered so far (each
/// linked to the seed and newly visited), split into those already expanded
/// (`popped`) and those waiting on the stack (`gstack`).
pub open spec fn fill_inv(
    cap: &GrayMatrix,
    t: int,
    old_v: Seq<bool>,
    s: (int, int),
    v: Seq<bool>,
    stack: Seq<(usize, usize)>,
    gstack: Seq<(int, int)>,
    disc: Seq<(int, int)>,
    popped: Seq<(int, int)>,
) -> bool {
    &&& v.len() == old_v.len()
    &&& forall|p: (int, int)| in_grid(cap, p) ==> (#[trigger] vis(cap, v, p) <==> vis(cap, old_v, p) || disc.contains(p))
    &&& disc.no_duplicates()
    &&& disc.contains(s)
    &&& forall|q: (int, int)| #[trigger] disc.contains(q) ==> in_grid(cap, q) && !vis(cap, old_v, q) && linked(cap, t, s, q)
    &&& popped.no_duplicates()
    &&& gstack.no_duplicates()
    &&& forall|q: (int, int)|
        #![trigger disc.contains(q)]
        #![trigger popped.contains(q)]
        #![trigger gstack.contains(q)]
        (disc.contains(q) <==> popped.contains(q) || gstack.contains(q)) && (popped.contains(q) ==> !gstack.contains(q))
    &&& popped.len() + gstack.len() == disc.len()
    &&& stack.len() == gstack.len()
    &&& forall|i: int| 0 <= i < gstack.len() ==> #[trigger] gstack[i] == (stack[i].0 as int, stack[i].1 as int)
    &&& count_true(v) == count_true(old_v) + disc.len()
}

/// Every lit neighbour of an expanded pixel is visited.
pub open spec fn explored(cap: &GrayMatrix, t: int, v: Seq<bool>, popped: Seq<(int, int)>) -> bool {
    forall|c: (int, int), q: (int, int)|
        #[trigger] popped.contains(c) && #[trigger] lit(cap, t, q) && touching(c, q) ==> vis(cap, v, q)
}

proof fn lemma_tight_box_push(m: Seq<(int, int)>, min_x: int, max_x: int, min_y: int, max_y: int, c: (int, int))
    requires
        m.len() > 0,
        tight_box(m, min_x, max_x, min_y, max_y),
    ensures
        tight_box(
            m.push(c),
            if c.0 < min_x { c.0 } else { min_x },
            if c.0 > max_x { c.0 } else { max_x },
            if c.1 < min_y { c.1 } else { min_y },
            if c.1 > max_y { c.1 } else { max_y },
        ),
{
    let n = m.push(c);
    let last = m.len() as int;
    assert(n[last] == c);
    assert forall|i: int| 0 <= i < m.len() implies #[trigger] n[i] == m[i] by {}
    let i1 = choose|i: int| 0 <= i < m.len() && #[trigger] m[i].0 == min_x;
    let i2 = choose|i: int| 0 <= i < m.len() && #[trigger] m[i].0 == max_x;
    let i3 = choose|i: int| 0 <= i < m.len() && #[trigger] m[i].1 == min_y;
    let i4 = choose|i: int| 0 <= i < m.len() && #[trigger] m[i].1 == max_y;
    assert(n[i1] == m[i1] && n[i2] == m[i2] && n[i3] == m[i3] && n[i4] == m[i4]);
    assert forall|i: int| 0 <= i < n.len() implies
        (if c.0 < min_x { c.0 } else { min_x }) <= #[trigger] n[i].0 <= (if c.0 > max_x { c.0 } else { max_x })
        && (if c.1 < min_y { c.1 } else { min_y }) <= n[i].1 <= (if c.1 > max_y { c.1 } else { max_y }) by {
        if i < last {
            assert(n[i] == m[i]);
            assert(min_x <= m[i].0 <= max_x && min_y <= m[i].1 <= max_y);
        }
    }
}

/// A box tight over the seed followed by a list that holds the seed is
/// tight over the list.
proof fn lemma_tight_box_drop_seed(s: (int, int), m: Seq<(int, int)>, min_x: int, max_x: int, min_y: int, max_y: int)
    requires
        m.contains(s),
        tight_box(seq![s] + m, min_x, max_x, min_y, max_y),
    ensures
        tight_box(m, min_x, max_x, min_y, max_y),
{
    let a = seq![s] + m;
    let k = choose|k: int| 0 <= k < m.len() && m[k] == s;
    assert forall|i: int| 0 <= i < m.len() implies min_x <= #[trigger] m[i].0 <= max_x && min_y <= m[i].1 <= max_y by {
        assert(a[i + 1] == m[i]);
        assert(min_x <= a[i + 1].0 <= max_x && min_y <= a[i + 1].1 <= max_y);
    }
    let i1 = choose|i: int| 0 <= i < a.len() && #[trigger] a[i].0 == min_x;
    let i2 = choose|i: int| 0 <= i < a.len() && #[trigger] a[i].0 == max_x;
    let i3 = choose|i: int| 0 <= i < a.len() && #[trigger] a[i].1 == min_y;
    let i4 = choose|i: int| 0 <= i < a.len() && #[trigger] a[i].1 == max_y;
    let j1 = if i1 == 0 { k } else { i1 - 1 };
    let j2 = if i2 == 0 { k } else { i2 - 1 };
    let j3 = if i3 == 0 { k } else { i3 - 1 };
    let j4 = if i4 == 0 { k } else { i4 - 1 };
    assert(a[0] == s);
    assert(i1 > 0 ==> a[i1] == m[i1 - 1]);
    assert(i2 > 0 ==> a[i2] == m[i2 - 1]);
    assert(i3 > 0 ==> a[i3] == m[i3 - 1]);
    assert(i4 > 0 ==> a[i4] == m[i4 - 1]);
    assert(m[j1].0 == min_x);
    assert(m[j2].0 == max_x);
    assert(m[j3].1 == min_y);
    assert(m[j4].1 == max_y);
}


// ── The fill ─────────────────────────────────────────────────────────────────

/// Flood-fill the component of the unvisited lit pixel `(sx, sy)`, marking
/// its pixels visited, and return its statistics.
fn fill(cap: &GrayMatrix, t: u8, visited: &mut Vec<bool>, sx: usize, sy: usize) -> (b: Blob)
    requires
        cap.wf(),
        sx < cap.width,
        sy < cap.height,
        fill_base(cap, t as int, old(visited)@, (sx as int, sy as int)),
    ensures
        final(visited)@.len() == old(visited)@.len(),
        forall|p: (int, int)| in_grid(cap, p) ==> (#[trigger] vis(cap, final(visited)@, p) <==> vis(cap, old(visited)@, p)
            || linked(cap, t as int, (sx as int, sy as int), p)),
        b.seed_x == sx,
        b.seed_y == sy,
        exists|m: Seq<(int, int)>| #[trigger] enumerates(cap, t as int, b.seed(), m)
            && b.area == m.len()
            && b.sum == luma_sum(cap, m)
            && tight_box(m, b.min_x as int, b.max_x as int, b.min_y as int, b.max_y as int),
{
    broadcast use vstd::seq_lib::group_seq_properties;

    let w = cap.width;
    let h = cap.height;
    let n = visited.len();
    let ghost ti = t as int;
    let ghost s = (sx as int, sy as int);
    let ghost old_v = visited@;
    proof {
        lemma_index_in_bounds(sx as int, sy as int, w as int, h as int);
        lemma_count_true_set(visited@, sy * w + sx);
        lemma_vis_update(cap, visited@, s, sy * w + sx);
        lemma_linked_refl(cap, ti, s);
    }
    let sidx = sy * w + sx;
    visited.set(sidx, true);
    let mut stack: Vec<(usize, usize)> = Vec::new();
    stack.push((sx, sy));
    let ghost mut disc: Seq<(int, int)> = seq![s];
    let ghost mut gstack: Seq<(int, int)> = seq![s];
    let ghost mut popped: Seq<(int, int)> = Seq::empty();
    proof {
        lemma_count_true_le(visited@);
        assert(disc[0] == s);
        assert(gstack[0] == s);
    }
    let mut min_x = sx;
    let mut max_x = sx;
    let mut min_y = sy;
    let mut max_y = sy;
    let mut area: usize = 0;
    let mut sum: u128 = 0;
    proof {
        assert(seq![s] + popped =~= seq![s]);
        assert(seq![s][0] == s);
    }
    while stack.len() > 0
        invariant
            cap.wf(),
            w == cap.width,
            h == cap.height,
            n == visited@.len(),
            sx < w,
            sy < h,
            s == (sx as int, sy as int),
            ti == t as int,
            fill_base(cap, ti, old_v, s),
            fill_inv(cap, ti, old_v, s, visited@, stack@, gstack, disc, popped),
            explored(cap, ti, visited@, popped),
            count_true(visited@) <= n,
            area == popped.len(),
            sum == luma_sum(cap, popped),
            sum <= 255 * area,
            tight_box(seq![s] + popped, min_x as int, max_x as int, min_y as int, max_y as int),
            min_x <= max_x < w,
            min_y <= max_y < h,
        decreases 2 * (n - count_true(visited@)) + stack.len(),
    {
        let ghost m0 = 2 * (n - count_true(visited@)) + stack.len();
        let top = stack.pop();
        let (cx, cy) = match top {
            Some(e) => e,
            None => (sx, sy),
        };
        let ghost c = (cx as int, cy as int);
        proof {
            let k = gstack.len() - 1;
            assert(gstack[k] == c);
            let g2 = gstack.drop_last();
            assert(gstack =~= g2.push(c));
            assert(!g2.contains(c)) by {
                if g2.contains(c) {
                    let j = choose|j: int| 0 <= j < g2.len() && g2[j] == c;
                    assert(gstack[j] == gstack[k]);
                }
            }
            assert(gstack.contains(c));
            assert(!popped.contains(c));
            lemma_push_no_dup(popped, c);
            assert(g2.no_duplicates()) by {
                assert forall|i: int, j: int| 0 <= i < g2.len() && 0 <= j < g2.len() && i != j implies g2[i] != g2[j] by {
                    assert(g2[i] == gstack[i] && g2[j] == gstack[j]);
                }
            }
            let p2 = popped.push(c);
            assert forall|q: (int, int)|
                #![trigger disc.contains(q)]
                #![trigger p2.contains(q)]
                #![trigger g2.contains(q)]
                (disc.contains(q) <==> p2.contains(q) || g2.contains(q)) && (p2.contains(q) ==> !g2.contains(q)) by {
                vstd::seq_lib::lemma_seq_contains_after_push(g2, c, q);
                vstd::seq_lib::lemma_seq_contains_after_push(popped, c, q);
            }
            assert(popped.push(c).drop_last() =~= popped);
            assert(seq![s] + popped.push(c) =~= (seq![s] + popped).push(c));
            lemma_tight_box_push(seq![s] + popped, min_x as int, max_x as int, min_y as int, max_y as int, c);
            assert forall|i: int| 0 <= i < g2.len() implies #[trigger] g2[i] == (stack@[i].0 as int, stack@[i].1 as int) by {
                assert(g2[i] == gstack[i]);
            }
            gstack = g2;
            popped = popped.push(c);
            assert(disc.contains(c));
        }
        let luma = cap.get(cx, cy);
        area = area + 1;
        sum = sum + luma as u128;
        if cx < min_x {
            min_x = cx;
        }
        if cx > max_x {
            max_x = cx;
        }
        if cy < min_y {
            min_y = cy;
        }
        if cy > max_y {
            max_y = cy;
        }
        let x0 = if cx > 0 { cx - 1 } else { 0 };
        let x1 = if cx + 1 < w { cx + 1 } else { w - 1 };
        let y0 = if cy > 0 { cy - 1 } else { 0 };
        let y1 = if cy + 1 < h { cy + 1 } else { h - 1 };
        let mut ny = y0;
        while ny <= y1
            invariant
                cap.wf(),
                w == cap.width,
                h == cap.height,
                n == visited@.len(),
                s == (sx as int, sy as int),
                ti == t as int,
                fill_base(cap, ti, old_v, s),
                fill_inv(cap, ti, old_v, s, visited@, stack@, gstack, disc, popped),
                explored(cap, ti, visited@, popped.drop_last()),
                popped.len() > 0,
                popped.last() == c,
                c == (cx as int, cy as int),
                cx < w,
                cy < h,
                x0 <= cx <= x1 < w,
                y0 <= cy <= y1 < h,
                x0 == cx || x0 == cx - 1,
                x1 == cx || x1 == cx + 1,
                y0 == cy || y0 == cy - 1,
                y1 == cy || y1 == cy + 1,
                x0 == cx ==> cx == 0,
                x1 == cx ==> cx == w - 1,
                y0 == cy ==> cy == 0,
                y1 == cy ==> cy == h - 1,
                y0 <= ny <= y1 + 1,
                count_true(visited@) <= n,
                2 * (n - count_true(visited@)) + stack.len() < m0,
                forall|q: (int, int)| #[trigger] lit(cap, ti, q) && touching(c, q) && q.1 < ny ==> vis(cap, visited@, q),
            decreases y1 + 1 - ny,
        {
            let mut nx = x0;
            while nx <= x1
                invariant
                    cap.wf(),
                    w == cap.width,
                    h == cap.height,
                    n == visited@.len(),
                    s == (sx as int, sy as int),
                    ti == t as int,
                    fill_base(cap, ti, old_v, s),
                    fill_inv(cap, ti, old_v, s, visited@, stack@, gstack, disc, popped),
                    explored(cap, ti, visited@, popped.drop_last()),
                    popped.len() > 0,
                    popped.last() == c,
                    c == (cx as int, cy as int),
                    x0 <= cx <= x1 < w,
                    y0 <= ny <= y1 < h,
                    x0 == cx || x0 == cx - 1,
                    x1 == cx || x1 == cx + 1,
                    y0 == cy || y0 == cy - 1,
                    y1 == cy || y1 == cy + 1,
                    x0 == cx ==> cx == 0,
                    x1 == cx ==> cx == w - 1,
                    x0 <= nx <= x1 + 1,
                    count_true(visited@) <= n,
                    2 * (n - count_true(visited@)) + stack.len() < m0,
                    forall|q: (int, int)| #[trigger] lit(cap, ti, q) && touching(c, q) && (q.1 < ny || (q.1 == ny && q.0 < nx)) ==> vis(cap, visited@, q),
                decreases x1 + 1 - nx,
            {
                proof {
                    lemma_index_in_bounds(nx as int, ny as int, w as int, h as int);
                }
                let nidx = ny * w + nx;
                let ghost q = (nx as int, ny as int);
                if !visited[nidx] && cap.get(nx, ny) >= t {
                    proof {
                        lemma_count_true_set(visited@, nidx as int);
                        lemma_vis_update(cap, visited@, q, nidx as int);
                        assert(!vis(cap, visited@, q));
                        assert(disc.contains(c));
                        lemma_linked_step(cap, ti, s, c, q);
                        assert(!disc.contains(q));
                        assert(!gstack.contains(q));
                        assert(!popped.contains(q));
                    }
                    let ghost v0 = visited@;
                    visited.set(nidx, true);
                    stack.push((nx, ny));
                    proof {
                        lemma_count_true_le(visited@);
                        let d2 = disc.push(q);
                        let g2 = gstack.push(q);
                        lemma_push_no_dup(disc, q);
                        lemma_push_no_dup(gstack, q);
                        assert forall|qq: (int, int)|
                            #![trigger d2.contains(qq)]
                            #![trigger popped.contains(qq)]
                            #![trigger g2.contains(qq)]
                            (d2.contains(qq) <==> popped.contains(qq) || g2.contains(qq)) && (popped.contains(qq) ==> !g2.contains(qq)) by {
                            vstd::seq_lib::lemma_seq_contains_after_push(disc, q, qq);
                            vstd::seq_lib::lemma_seq_contains_after_push(gstack, q, qq);
                        }
                        assert forall|i: int| 0 <= i < g2.len() implies #[trigger] g2[i] == (stack@[i].0 as int, stack@[i].1 as int) by {
                            if i < gstack.len() {
                                assert(g2[i] == gstack[i]);
                            }
                        }
                        assert forall|cc: (int, int), r: (int, int)|
                            #[trigger] popped.drop_last().contains(cc) && #[trigger] lit(cap, ti, r) && touching(cc, r) implies vis(cap, visited@, r) by {
                            assert(vis(cap, v0, r));
                        }
                        assert forall|p: (int, int)| in_grid(cap, p) implies (#[trigger] vis(cap, visited@, p) <==> vis(cap, old_v, p) || d2.contains(p)) by {
                            vstd::seq_lib::lemma_seq_contains_after_push(disc, q, p);
                            assert(vis(cap, v0, p) <==> vis(cap, old_v, p) || disc.contains(p));
                        }
                        vstd::seq_lib::lemma_seq_contains_after_push(disc, q, s);
                        assert forall|qq: (int, int)| #[trigger] d2.contains(qq) implies in_grid(cap, qq) && !vis(cap, old_v, qq) && linked(cap, ti, s, qq) by {
                            vstd::seq_lib::lemma_seq_contains_after_push(disc, q, qq);
                        }
                        disc = d2;
                        gstack = g2;
                    }
                }
                nx += 1;
            }
            ny += 1;
        }
        proof {
            assert(popped =~= popped.drop_last().push(c));
            assert forall|cc: (int, int), r: (int, int)|
                #[trigger] popped.contains(cc) && #[trigger] lit(cap, ti, r) && touching(cc, r) implies vis(cap, visited@, r) by {
                if cc != c {
                    assert(popped.drop_last().contains(cc));
                }
            }
        }
    }
    proof {
        assert(gstack.len() == 0);
        assert forall|q: (int, int)| #[trigger] disc.contains(q) implies popped.contains(q) by {
            assert(!gstack.contains(q));
        }
        let member = |q: (int, int)| disc.contains(q);
        assert forall|cc: (int, int), r: (int, int)| member(cc) && #[trigger] lit(cap, ti, r) && #[trigger] touching(cc, r) implies member(r) by {
            assert(popped.contains(cc));
            assert(vis(cap, visited@, r));
            lemma_linked_lit(cap, ti, s, cc);
            if vis(cap, old_v, r) {
                assert(vis(cap, old_v, cc));
            }
        }
        assert forall|q: (int, int)| #[trigger] popped.contains(q) <==> linked(cap, ti, s, q) by {
            if linked(cap, ti, s, q) {
                lemma_closed_holds_component(cap, ti, member, s, q);
            }
        }
        assert(enumerates(cap, ti, s, popped));
        assert(popped.contains(s));
        lemma_tight_box_drop_seed(s, popped, min_x as int, max_x as int, min_y as int, max_y as int);
    }
    let b = Blob { seed_x: sx, seed_y: sy, min_x, max_x, min_y, max_y, area, sum };
    proof {
        assert(b.seed() == s);
        assert(enumerates(cap, t as int, b.seed(), popped));
        assert(tight_box(popped, b.min_x as int, b.max_x as int, b.min_y as int, b.max_y as int));
    }
    b
}


// ── All components ──────────────────────────────────────────────────────────

/// Every component of pixels with luma ≥ `t`, each once, in scan order of
/// its first pixel.
pub fn bright_components(cap: &GrayMatrix, t: u8) -> (blobs: Vec<Blob>)
    requires
        cap.wf(),
    ensures
        is_component_list(cap, t as int, blobs@),
{
    let w = cap.width;
    let h = cap.height;
    let n = cap.data.len();
    let ghost ti = t as int;
    let mut visited: Vec<bool> = Vec::new();
    let mut k: usize = 0;
    while k < n
        invariant
            visited@.len() == k,
            k <= n,
            count_true(visited@) == 0,
            forall|i: int| 0 <= i < k ==> !#[trigger] visited@[i],
        decreases n - k,
    {
        let ghost v0 = visited@;
        visited.push(false);
        proof {
            assert(visited@.drop_last() =~= v0);
        }
        k += 1;
    }
    let mut blobs: Vec<Blob> = Vec::new();
    proof {
        assert forall|p: (int, int)| in_grid(cap, p) implies !#[trigger] vis(cap, visited@, p) by {
            lemma_index_in_bounds(p.0, p.1, w as int, h as int);
        }
    }
    let mut y: usize = 0;
    while y < h
        invariant
            cap.wf(),
            w == cap.width,
            h == cap.height,
            n == cap.data@.len(),
            ti == t as int,
            visited@.len() == n,
            y <= h,
            forall|p: (int, int)| in_grid(cap, p) ==> (#[trigger] vis(cap, visited@, p)
                <==> exists|i: int| 0 <= i < blobs@.len() && #[trigger] linked(cap, ti, blobs@[i].seed(), p)),
            forall|i: int| 0 <= i < blobs@.len() ==> #[trigger] blob_of(cap, ti, blobs@[i]),
            forall|i: int, j: int| 0 <= i < j < blobs@.len() ==> scan_before(#[trigger] blobs@[i].seed(), #[trigger] blobs@[j].seed()),
            forall|i: int| 0 <= i < blobs@.len() ==> #[trigger] blobs@[i].seed().1 < y,
            forall|p: (int, int)| #[trigger] lit(cap, ti, p) && p.1 < y ==> vis(cap, visited@, p),
        decreases h - y,
    {
        let mut x: usize = 0;
        while x < w
            invariant
                cap.wf(),
                w == cap.width,
                h == cap.height,
                n == cap.data@.len(),
                ti == t as int,
                visited@.len() == n,
                y < h,
                x <= w,
                forall|p: (int, int)| in_grid(cap, p) ==> (#[trigger] vis(cap, visited@, p)
                    <==> exists|i: int| 0 <= i < blobs@.len() && #[trigger] linked(cap, ti, blobs@[i].seed(), p)),
                forall|i: int| 0 <= i < blobs@.len() ==> #[trigger] blob_of(cap, ti, blobs@[i]),
                forall|i: int, j: int| 0 <= i < j < blobs@.len() ==> scan_before(#[trigger] blobs@[i].seed(), #[trigger] blobs@[j].seed()),
                forall|i: int| 0 <= i < blobs@.len() ==> scan_before(#[trigger] blobs@[i].seed(), (x as int, y as int)),
                forall|p: (int, int)| #[trigger] lit(cap, ti, p) && scan_before(p, (x as int, y as int)) ==> vis(cap, visited@, p),
            decreases w - x,
        {
            proof {
                lemma_index_in_bounds(x as int, y as int, w as int, h as int);
            }
            let idx = y * w + x;
            let ghost p0 = (x as int, y as int);
            if !visited[idx] && cap.get(x, y) >= t {
                proof {
                    assert(!vis(cap, visited@, p0));
                    assert forall|p: (int, int), q: (int, int)|
                        in_grid(cap, p) && #[trigger] vis(cap, visited@, p) && #[trigger] lit(cap, ti, q) && touching(p, q)
                        implies vis(cap, visited@, q) by {
                        let i = choose|i: int| 0 <= i < blobs@.len() && #[trigger] linked(cap, ti, blobs@[i].seed(), p);
                        lemma_linked_step(cap, ti, blobs@[i].seed(), p, q);
                    }
                    assert(fill_base(cap, ti, visited@, p0));
                    // The new component's first pixel is p0: any earlier pixel of it
                    // would already be visited, in an earlier component.
                    assert forall|q: (int, int)| #[trigger] linked(cap, ti, p0, q) && q != p0 implies scan_before(p0, q) by {
                        if !scan_before(p0, q) {
                            lemma_linked_lit(cap, ti, p0, q);
                            assert(scan_before(q, p0));
                            assert(vis(cap, visited@, q));
                            let i = choose|i: int| 0 <= i < blobs@.len() && #[trigger] linked(cap, ti, blobs@[i].seed(), q);
                            lemma_linked_sym(cap, ti, p0, q);
                            lemma_linked_trans(cap, ti, blobs@[i].seed(), q, p0);
                        }
                    }
                }
                let ghost vb = visited@;
                let ghost bb = blobs@;
                let b = fill(cap, t, &mut visited, x, y);
                blobs.push(b);
                proof {
                    assert(blobs@.len() == bb.len() + 1);
                    assert(blobs@[bb.len() as int] == b);
                    assert forall|i: int| 0 <= i < bb.len() implies #[trigger] blobs@[i] == bb[i] by {}
                    assert(b.seed() == p0);
                    assert(blob_of(cap, ti, b));
                    assert forall|p: (int, int)| in_grid(cap, p) implies (#[trigger] vis(cap, visited@, p)
                        <==> exists|i: int| 0 <= i < blobs@.len() && #[trigger] linked(cap, ti, blobs@[i].seed(), p)) by {
                        if vis(cap, vb, p) {
                            let i = choose|i: int| 0 <= i < bb.len() && #[trigger] linked(cap, ti, bb[i].seed(), p);
                            assert(blobs@[i] == bb[i]);
                        }
                        if linked(cap, ti, p0, p) {
                            assert(linked(cap, ti, blobs@[bb.len() as int].seed(), p));
                        }
                        if exists|i: int| 0 <= i < blobs@.len() && #[trigger] linked(cap, ti, blobs@[i].seed(), p) {
                            let i = choose|i: int| 0 <= i < blobs@.len() && #[trigger] linked(cap, ti, blobs@[i].seed(), p);
                            if i < bb.len() {
                                assert(blobs@[i] == bb[i]);
                                assert(vis(cap, vb, p));
                            }
                        }
                    }
                    assert forall|i: int| 0 <= i < blobs@.len() implies #[trigger] blob_of(cap, ti, blobs@[i]) by {
                        if i < bb.len() {
                            assert(blobs@[i] == bb[i]);
                        }
                    }
                    assert forall|i: int, j: int| 0 <= i < j < blobs@.len() implies scan_before(#[trigger] blobs@[i].seed(), #[trigger] blobs@[j].seed()) by {
                        assert(blobs@[i] == bb[i]);
                        if j < bb.len() {
                            assert(blobs@[j] == bb[j]);
                        }
                    }
                    lemma_linked_refl(cap, ti, p0);
                }
            }
            proof {
                assert forall|i: int| 0 <= i < blobs@.len() implies scan_before(#[trigger] blobs@[i].seed(), ((x + 1) as int, y as int)) by {}
                assert forall|p: (int, int)| #[trigger] lit(cap, ti, p) && scan_before(p, ((x + 1) as int, y as int)) implies vis(cap, visited@, p) by {
                    if p == p0 {
                        assert(cap.px(p0.0, p0.1) == cap.data@[idx as int]);
                    }
                }
            }
            x += 1;
        }
        y += 1;
    }
    proof {
        assert forall|p: (int, int)| #[trigger] lit(cap, ti, p) implies exists|i: int| 0 <= i < blobs@.len() && #[trigger] linked(cap, ti, blobs@[i].seed(), p) by {
            assert(vis(cap, visited@, p));
        }
    }
    blobs
}


/// Distinct listed components share no pixel: every lit pixel belongs to
/// exactly one of them.
pub proof fn law_components_disjoint(cap: &GrayMatrix, t: int, blobs: Seq<Blob>, i: int, j: int, p: (int, int))
    requires
        is_component_list(cap, t, blobs),
        0 <= i < j < blobs.len(),
    ensures
        !(linked(cap, t, blobs[i].seed(), p) && linked(cap, t, blobs[j].seed(), p)),
{
    if linked(cap, t, blobs[i].seed(), p) && linked(cap, t, blobs[j].seed(), p) {
        let a = blobs[i].seed();
        let b = blobs[j].seed();
        assert(blob_of(cap, t, blobs[i]));
        assert(blob_of(cap, t, blobs[j]));
        assert(scan_before(a, b));
        lemma_linked_sym(cap, t, b, p);
        lemma_linked_trans(cap, t, a, p, b);
        lemma_linked_sym(cap, t, a, b);
        assert(linked(cap, t, b, a));
        assert(a != b);
        assert(scan_before(b, a));
    }
}

/// A component's box lies in the capture, and it has at least one pixel and
/// at most 255 luma per pixel.
pub proof fn lemma_blob_bounds(cap: &GrayMatrix, t: int, b: Blob)
    requires
        blob_of(cap, t, b),
    ensures
        b.min_x <= b.max_x < cap.width,
        b.min_y <= b.max_y < cap.height,
        b.area >= 1,
        b.sum <= 255 * b.area,
{
    let m = choose|m: Seq<(int, int)>| #[trigger] enumerates(cap, t, b.seed(), m)
        && b.area == m.len()
        && b.sum == luma_sum(cap, m)
        && tight_box(m, b.min_x as int, b.max_x as int, b.min_y as int, b.max_y as int);
    lemma_linked_refl(cap, t, b.seed());
    assert(m.contains(b.seed()));
    let i2 = choose|i: int| 0 <= i < m.len() && #[trigger] m[i].0 == b.max_x as int;
    let i4 = choose|i: int| 0 <= i < m.len() && #[trigger] m[i].1 == b.max_y as int;
    assert(m.contains(m[i2]));
    assert(m.contains(m[i4]));
    lemma_linked_lit(cap, t, b.seed(), m[i2]);
    lemma_linked_lit(cap, t, b.seed(), m[i4]);
    assert(b.min_x <= m[i2].0 && b.min_y <= m[i2].1);
    lemma_luma_sum_bound(cap, m);
}

proof fn lemma_luma_sum_bound(cap: &GrayMatrix, m: Seq<(int, int)>)
    ensures
        0 <= luma_sum(cap, m) <= 255 * m.len(),
    decreases m.len(),
{
    if m.len() > 0 {
        lemma_luma_sum_bound(cap, m.drop_last());
    }
}

} // verus!
