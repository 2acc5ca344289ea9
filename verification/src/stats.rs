//! Exact statistics of greyscale pixels: sums, sums of squares and counts,
//! and the comparisons of a mean, a variance or a share against a threshold,
//! decided on integers.
use vstd::prelude::*;

verus! {

/// Σv over the pixels.
pub open spec fn luma_sum(s: Seq<u8>) -> int
    decreases s.len(),
{
    if s.len() == 0 {
        0
    } else {
        luma_sum(s.drop_last()) + s.last()
    }
}

/// Σv² over the pixels.
pub open spec fn luma_sq_sum(s: Seq<u8>) -> int
    decreases s.len(),
{
    if s.len() == 0 {
        0
    } else {
        luma_sq_sum(s.drop_last()) + s.last() * s.last()
    }
}

/// How many pixels are at least `t`.
pub open spec fn count_at_least(s: Seq<u8>, t: u8) -> int
    decreases s.len(),
{
    if s.len() == 0 {
        0
    } else {
        count_at_least(s.drop_last(), t) + if s.last() >= t { 1int } else { 0int }
    }
}

/// n·Σv² − (Σv)², which is n² times the variance of `n` values.
pub open spec fn spread_of(n: int, sum: int, sq: int) -> int {
    n * sq - sum * sum
}

/// The mean of `n` values summing to `sum` is at least `t`; no values
/// have mean 0.
pub open spec fn mean_ge(n: int, sum: int, t: int) -> bool {
    if n == 0 {
        0 >= t
    } else {
        sum >= t * n
    }
}

/// The mean is above `t`; no values have mean 0.
pub open spec fn mean_gt(n: int, sum: int, t: int) -> bool {
    if n == 0 {
        0 > t
    } else {
        sum > t * n
    }
}

/// The variance is at least `k`; no values have variance 0.
pub open spec fn var_ge(n: int, sum: int, sq: int, k: int) -> bool {
    if n == 0 {
        0 >= k
    } else {
        spread_of(n, sum, sq) >= k * n * n
    }
}

/// The variance is above `k`; no values have variance 0.
pub open spec fn var_gt(n: int, sum: int, sq: int, k: int) -> bool {
    if n == 0 {
        0 > k
    } else {
        spread_of(n, sum, sq) > k * n * n
    }
}

/// `count` out of `n` is a share of at least `num / den`; out of nothing
/// the share is 0.
pub open spec fn share_ge(count: int, n: int, num: int, den: int) -> bool {
    if n == 0 {
        0 >= num
    } else {
        den * count >= num * n
    }
}

/// The mean luma of the pixels is at least `t`.
pub open spec fn mean_at_least(s: Seq<u8>, t: int) -> bool {
    mean_ge(s.len() as int, luma_sum(s), t)
}

/// The mean luma of the pixels is above `t`.
pub open spec fn mean_above(s: Seq<u8>, t: int) -> bool {
    mean_gt(s.len() as int, luma_sum(s), t)
}

/// The variance of the pixels' luma is at least `k`.
pub open spec fn variance_at_least(s: Seq<u8>, k: int) -> bool {
    var_ge(s.len() as int, luma_sum(s), luma_sq_sum(s), k)
}

/// The variance of the pixels' luma is above `k`.
pub open spec fn variance_above(s: Seq<u8>, k: int) -> bool {
    var_gt(s.len() as int, luma_sum(s), luma_sq_sum(s), k)
}

/// At least `num / den` of the pixels have luma at least `t`.
pub open spec fn share_at_least(s: Seq<u8>, t: u8, num: int, den: int) -> bool {
    share_ge(count_at_least(s, t), s.len() as int, num, den)
}

pub proof fn lemma_sums_bounded(s: Seq<u8>, t: u8)
    ensures
        0 <= luma_sum(s) <= 255 * s.len(),
        0 <= luma_sq_sum(s) <= 65025 * s.len(),
        0 <= count_at_least(s, t) <= s.len(),
    decreases s.len(),
{
    if s.len() > 0 {
        lemma_sums_bounded(s.drop_last(), t);
        let v = s.last();
        assert(0 <= v * v <= 65025) by (nonlinear_arith)
            requires
                0 <= v <= 255,
        ;
    }
}

proof fn lemma_product_bound(a: int, amax: int, b: int, bmax: int)
    requires
        0 <= a <= amax,
        0 <= b <= bmax,
    ensures
        0 <= a * b <= amax * bmax,
{
    assert(0 <= a * b <= amax * bmax) by (nonlinear_arith)
        requires
            0 <= a <= amax,
            0 <= b <= bmax,
    ;
}

proof fn lemma_quotient_small(s: int, n: int, m: int, r: int)
    requires
        s == n * m + r,
        0 <= r < n,
        0 <= s <= 255 * n,
    ensures
        0 <= m <= 255,
        0 <= 2 * m <= 510,
        0 <= m * m <= 65025,
{
    assert(0 <= m <= 255) by (nonlinear_arith)
        requires
            s == n * m + r,
            0 <= r < n,
            0 <= s <= 255 * n,
    ;
    lemma_product_bound(m, 255, m, 255);
}

/// With s1 = n·m + r and b = m²·n + 2·m·r + k·n:
/// n·s2 − s1² − k·n² = n·(s2 − b) − r².
proof fn lemma_spread_split(s1: int, s2: int, n: int, m: int, r: int, k: int, b: int)
    requires
        s1 == n * m + r,
        b == m * m * n + 2 * m * r + k * n,
    ensures
        spread_of(n, s1, s2) - k * n * n == n * (s2 - b) - r * r,
{
    assert(s1 * s1 == n * n * m * m + 2 * n * m * r + r * r) by (nonlinear_arith)
        requires
            s1 == n * m + r,
    ;
    assert(n * b == m * m * n * n + 2 * m * r * n + k * n * n) by (nonlinear_arith)
        requires
            b == m * m * n + 2 * m * r + k * n,
    ;
    assert(n * (s2 - b) == n * s2 - n * b) by (nonlinear_arith);
    assert(m * m * n * n == n * n * m * m) by (nonlinear_arith);
    assert(2 * m * r * n == 2 * n * m * r) by (nonlinear_arith);
}

/// The count, sum and sum of squares of a run of pixels.
#[derive(Clone, Copy, Debug)]
pub struct PixelStats {
    pub n: usize,
    pub sum: u128,
    pub sq_sum: u128,
}

impl PixelStats {
    /// These are the statistics of `s`.
    pub open spec fn describes(self, s: Seq<u8>) -> bool {
        &&& self.n == s.len()
        &&& self.sum == luma_sum(s)
        &&& self.sq_sum == luma_sq_sum(s)
    }

    /// The sums are those of `n` values of at most 255.
    pub open spec fn wf(self) -> bool {
        &&& self.sum <= 255 * self.n
        &&& self.sq_sum <= 65025 * self.n
    }

    /// Whether these statistics could come from a capture: sums of at most
    /// 255 and 65025 per pixel.
    pub fn plausible(&self) -> (b: bool)
        ensures
            b == self.wf(),
    {
        let n = self.n as u128;
        self.sum <= 255 * n && self.sq_sum <= 65025 * n
    }

    /// The statistics of `data[lo..hi]`.
    pub fn of_range(data: &Vec<u8>, lo: usize, hi: usize) -> (st: PixelStats)
        requires
            lo <= hi <= data.len(),
        ensures
            st.describes(data@.subrange(lo as int, hi as int)),
            st.wf(),
    {
        let mut sum: u128 = 0;
        let mut sq: u128 = 0;
        let mut i: usize = lo;
        while i < hi
            invariant
                lo <= i <= hi <= data.len(),
                sum == luma_sum(data@.subrange(lo as int, i as int)),
                sq == luma_sq_sum(data@.subrange(lo as int, i as int)),
                sum <= 255 * (i - lo),
                sq <= 65025 * (i - lo),
            decreases hi - i,
        {
            let v = data[i];
            proof {
                assert(data@.subrange(lo as int, i + 1).drop_last() =~= data@.subrange(lo as int, i as int));
                assert(v * v <= 65025) by (nonlinear_arith)
                    requires
                        v <= 255,
                ;
            }
            sum = sum + v as u128;
            sq = sq + (v as u128) * (v as u128);
            i += 1;
        }
        PixelStats { n: hi - lo, sum, sq_sum: sq }
    }

    /// The statistics of all of `data`.
    pub fn of_all(data: &Vec<u8>) -> (st: PixelStats)
        ensures
            st.describes(data@),
            st.wf(),
    {
        let st = Self::of_range(data, 0, data.len());
        assert(data@.subrange(0, data@.len() as int) =~= data@);
        st
    }

    /// The mean is at least `t`.
    pub fn mean_at_least(&self, t: u8) -> (b: bool)
        ensures
            b == mean_ge(self.n as int, self.sum as int, t as int),
    {
        if self.n == 0 {
            t == 0
        } else {
            proof {
                lemma_product_bound(t as int, 255, self.n as int, 0xffff_ffff_ffff_ffff);
            }
            self.sum >= (t as u128) * (self.n as u128)
        }
    }

    /// The mean is above `t`.
    pub fn mean_above(&self, t: u8) -> (b: bool)
        ensures
            b == mean_gt(self.n as int, self.sum as int, t as int),
    {
        if self.n == 0 {
            false
        } else {
            proof {
                lemma_product_bound(t as int, 255, self.n as int, 0xffff_ffff_ffff_ffff);
            }
            self.sum > (t as u128) * (self.n as u128)
        }
    }

    /// n·Σv² − (Σv)² ≥ k·n² + extra, decided without overflow: with
    /// Σv = m·n + r, it is n·(Σv² − m²·n − 2·m·r − k·n) ≥ r² + extra.
    fn spread_reaches(&self, k: u32, extra: u128) -> (b: bool)
        requires
            self.wf(),
            self.n > 0,
            extra <= 1,
        ensures
            b == (spread_of(self.n as int, self.sum as int, self.sq_sum as int) >= k * self.n * self.n + extra),
    {
        let n = self.n as u128;
        let m = self.sum / n;
        let r = self.sum % n;
        let ghost ni = n as int;
        let ghost mi = m as int;
        let ghost ri = r as int;
        let ghost ki = k as int;
        let ghost s1 = self.sum as int;
        let ghost s2 = self.sq_sum as int;
        proof {
            assert(self.n <= u64::MAX);
            vstd::arithmetic::div_mod::lemma_fundamental_div_mod(s1, ni);
            assert(s1 == ni * mi + ri);
            lemma_quotient_small(s1, ni, mi, ri);
            lemma_product_bound(mi * mi, 65025, ni, 0xffff_ffff_ffff_ffff);
            lemma_product_bound(2 * mi, 510, ri, 0xffff_ffff_ffff_ffff);
            lemma_product_bound(ki, 0xffff_ffff, ni, 0xffff_ffff_ffff_ffff);
        }
        let mm = m * m;
        let b1 = mm * n;
        let b2 = 2 * m * r;
        let b3 = (k as u128) * n;
        let b = b1 + b2 + b3;
        let ghost bi = mi * mi * ni + 2 * mi * ri + ki * ni;
        assert(b == bi);
        proof {
            lemma_spread_split(s1, s2, ni, mi, ri, ki, bi);
        }
        if self.sq_sum < b {
            proof {
                let x = s2 - bi;
                assert(ni * x < 0) by (nonlinear_arith)
                    requires
                        x < 0,
                        ni > 0,
                ;
                assert(0 <= ri * ri) by (nonlinear_arith);
            }
            return false;
        }
        let x = self.sq_sum - b;
        if x > r {
            proof {
                let xi = x as int;
                assert(ni * xi >= ri * ri + 1) by (nonlinear_arith)
                    requires
                        xi >= ri + 1,
                        ni >= ri + 1,
                        ri >= 0,
                ;
            }
            return true;
        }
        proof {
            let xi = x as int;
            lemma_product_bound(ni, 0xffff_ffff_ffff_ffff, xi, 0xffff_ffff_ffff_fffe);
            lemma_product_bound(ri, 0xffff_ffff_ffff_fffe, ri, 0xffff_ffff_ffff_fffe);
        }
        n * x >= r * r + extra
    }

    /// The variance is at least `k`.
    pub fn variance_at_least(&self, k: u32) -> (b: bool)
        requires
            self.wf(),
        ensures
            b == var_ge(self.n as int, self.sum as int, self.sq_sum as int, k as int),
    {
        if self.n == 0 {
            k == 0
        } else {
            self.spread_reaches(k, 0)
        }
    }

    /// The variance is above `k`.
    pub fn variance_above(&self, k: u32) -> (b: bool)
        requires
            self.wf(),
        ensures
            b == var_gt(self.n as int, self.sum as int, self.sq_sum as int, k as int),
    {
        if self.n == 0 {
            false
        } else {
            self.spread_reaches(k, 1)
        }
    }
}

/// a·V1 − b·V2 ≥ c·n², where V1 and V2 are n² times the variances of two
/// samples of `n` values: a·var1 − b·var2 ≥ c.
pub open spec fn spreads_combo_ge(n: int, v1: int, v2: int, a: int, b: int, c: int) -> bool {
    a * v1 - b * v2 >= c * n * n
}

/// a·var(s1) − b·var(s2) ≥ c for two samples of the same size.
pub open spec fn variances_combo(s1: Seq<u8>, s2: Seq<u8>, a: int, b: int, c: int) -> bool {
    spreads_combo_ge(
        s1.len() as int,
        spread_of(s1.len() as int, luma_sum(s1), luma_sq_sum(s1)),
        spread_of(s2.len() as int, luma_sum(s2), luma_sq_sum(s2)),
        a,
        b,
        c,
    )
}

/// a·V1 − b·V2 > c·n²: a·var1 − b·var2 > c.
pub open spec fn spreads_combo_gt(n: int, v1: int, v2: int, a: int, b: int, c: int) -> bool {
    a * v1 - b * v2 > c * n * n
}

/// n·Σv² − (Σv)² written as n·e − s with s = (r² mod n), where
/// Σv = m·n + r and e = Σv² − m²·n − 2·m·r − (r² div n).
proof fn lemma_spread_parts(s1: int, s2: int, n: int, m: int, r: int, q: int, t: int, e: int)
    requires
        n > 0,
        s1 == n * m + r,
        r * r == n * q + t,
        e == s2 - m * m * n - 2 * m * r - q,
    ensures
        spread_of(n, s1, s2) == n * e - t,
{
    assert(s1 * s1 == n * n * m * m + 2 * n * m * r + r * r) by (nonlinear_arith)
        requires
            s1 == n * m + r,
    ;
    assert(n * e == n * s2 - m * m * n * n - 2 * m * r * n - n * q) by (nonlinear_arith)
        requires
            e == s2 - m * m * n - 2 * m * r - q,
    ;
    assert(m * m * n * n == n * n * m * m) by (nonlinear_arith);
    assert(2 * m * r * n == 2 * n * m * r) by (nonlinear_arith);
}

/// The parts of the spread of `st`: `(e, t)` with spread = n·e − t and
/// 0 ≤ t < n.
fn spread_parts(st: &PixelStats) -> (p: (i128, u128))
    requires
        st.wf(),
        st.n > 0,
    ensures
        spread_of(st.n as int, st.sum as int, st.sq_sum as int) == st.n * p.0 - p.1,
        0 <= p.1 < st.n,
        -0x4_0000_0000_0000_0000_0000 <= p.0 <= 0x4_0000_0000_0000_0000_0000,
{
    let n = st.n as u128;
    let m = st.sum / n;
    let r = st.sum % n;
    let ghost ni = n as int;
    let ghost mi = m as int;
    let ghost ri = r as int;
    proof {
        assert(st.n <= u64::MAX);
        vstd::arithmetic::div_mod::lemma_fundamental_div_mod(st.sum as int, ni);
        lemma_quotient_small(st.sum as int, ni, mi, ri);
        lemma_product_bound(mi * mi, 65025, ni, 0xffff_ffff_ffff_ffff);
        lemma_product_bound(2 * mi, 510, ri, 0xffff_ffff_ffff_ffff);
        lemma_product_bound(ri, 0xffff_ffff_ffff_fffe, ri, 0xffff_ffff_ffff_fffe);
    }
    let rr = r * r;
    let q = rr / n;
    let t = rr % n;
    proof {
        vstd::arithmetic::div_mod::lemma_fundamental_div_mod(rr as int, ni);
        assert(rr < ni * ni) by (nonlinear_arith)
            requires
                0 <= ri < ni,
                rr == ri * ri,
        ;
        assert(q < 0x1_0000_0000_0000_0000) by (nonlinear_arith)
            requires
                rr == ni * q + t,
                0 <= t,
                ni > 0,
                0 <= rr < ni * ni,
                ni <= 0xffff_ffff_ffff_ffff,
        ;
    }
    let mm = m * m;
    let e = (st.sq_sum as i128) - ((mm * n) as i128) - ((2 * m * r) as i128) - (q as i128);
    proof {
        lemma_spread_parts(st.sum as int, st.sq_sum as int, ni, mi, ri, q as int, t as int, e as int);
    }
    (e, t)
}

impl PixelStats {
    /// a·V1 − b·V2 ≥ c·n² + extra for two samples of the same size,
    /// decided exactly: with each spread written n·e − t (0 ≤ t < n), it is
    /// n·(a·e1 − b·e2 − c·n) ≥ a·t1 − b·t2 + extra, and a·t1 − b·t2 lies
    /// from −b·(n − 1) to a·(n − 1).
    fn combo_reaches(&self, other: &PixelStats, a: u8, b: u8, c: u16, extra: bool) -> (r: bool)
        requires
            self.wf(),
            other.wf(),
            self.n == other.n,
            self.n > 0,
        ensures
            r == (a * spread_of(self.n as int, self.sum as int, self.sq_sum as int) - b * spread_of(
                other.n as int,
                other.sum as int,
                other.sq_sum as int,
            ) >= c * self.n * self.n + (if extra { 1int } else { 0int })),
    {
        let e: i128 = if extra { 1 } else { 0 };
        let ghost ei = e as int;
        let (e1, t1) = spread_parts(self);
        let (e2, t2) = spread_parts(other);
        let ghost ni = self.n as int;
        let n = self.n as i128;
        proof {
            assert(self.n <= u64::MAX);
            lemma_product_bound(c as int, 0xffff, ni, 0xffff_ffff_ffff_ffff);
            assert(-255 * 0x4_0000_0000_0000_0000_0000 <= a * e1 <= 255 * 0x4_0000_0000_0000_0000_0000) by (nonlinear_arith)
                requires
                    0 <= a <= 255,
                    -0x4_0000_0000_0000_0000_0000 <= e1 <= 0x4_0000_0000_0000_0000_0000,
            ;
            assert(-255 * 0x4_0000_0000_0000_0000_0000 <= b * e2 <= 255 * 0x4_0000_0000_0000_0000_0000) by (nonlinear_arith)
                requires
                    0 <= b <= 255,
                    -0x4_0000_0000_0000_0000_0000 <= e2 <= 0x4_0000_0000_0000_0000_0000,
            ;
        }
        let ai = a as i128;
        let bi = b as i128;
        let l = ai * e1 - bi * e2 - (c as i128) * n;
        let ghost li = l as int;
        let ghost v1 = spread_of(ni, self.sum as int, self.sq_sum as int);
        let ghost v2 = spread_of(ni, other.sum as int, other.sq_sum as int);
        let ghost rhs = a * (t1 as int) - b * (t2 as int);
        proof {
            assert(a * v1 - b * v2 - c * ni * ni == ni * li - rhs) by (nonlinear_arith)
                requires
                    v1 == ni * e1 - t1,
                    v2 == ni * e2 - t2,
                    li == a * e1 - b * e2 - c * ni,
                    rhs == a * (t1 as int) - b * (t2 as int),
            ;
            assert(-(b as int) * (ni - 1) <= rhs) by (nonlinear_arith)
                requires
                    rhs == a * (t1 as int) - b * (t2 as int),
                    0 <= t1,
                    0 <= t2 < ni,
                    0 <= a,
                    0 <= b,
                    ni > 0,
            ;
            assert(rhs <= (a as int) * (ni - 1)) by (nonlinear_arith)
                requires
                    rhs == a * (t1 as int) - b * (t2 as int),
                    0 <= t1 < ni,
                    0 <= t2,
                    0 <= a,
                    0 <= b,
            ;
        }
        if l >= ai + e {
            proof {
                assert(ni * li >= (a + ei) * ni) by (nonlinear_arith)
                    requires
                        li >= a + ei,
                        ni > 0,
                ;
                assert((a + ei) * ni >= (a as int) * (ni - 1) + ei) by (nonlinear_arith)
                    requires
                        a >= 0,
                        0 <= ei <= 1,
                        ni >= 1,
                ;
                assert(a * v1 - b * v2 - c * ni * ni >= ei);
            }
            return true;
        }
        if l < -bi {
            proof {
                assert(ni * li <= -(b as int) * ni - ni) by (nonlinear_arith)
                    requires
                        li <= -(b as int) - 1,
                        ni > 0,
                ;
                assert(-(b as int) * (ni - 1) == -(b as int) * ni + b) by (nonlinear_arith);
                assert(a * v1 - b * v2 - c * ni * ni < 0);
            }
            return false;
        }
        proof {
            assert(-255 <= li <= 255);
            assert(-255 * 0xffff_ffff_ffff_ffff <= ni * li <= 255 * 0xffff_ffff_ffff_ffff) by (nonlinear_arith)
                requires
                    -255 <= li <= 255,
                    0 < ni <= 0xffff_ffff_ffff_ffff,
            ;
            lemma_product_bound(a as int, 255, t1 as int, 0xffff_ffff_ffff_ffff);
            lemma_product_bound(b as int, 255, t2 as int, 0xffff_ffff_ffff_ffff);
        }
        n * l >= ai * (t1 as i128) - bi * (t2 as i128) + e
    }

    /// a·var(self) − b·var(other) ≥ c, for two samples of the same size.
    pub fn variances_combo_at_least(&self, other: &PixelStats, a: u8, b: u8, c: u16) -> (r: bool)
        requires
            self.wf(),
            other.wf(),
            self.n == other.n,
            self.n > 0,
        ensures
            r == spreads_combo_ge(
                self.n as int,
                spread_of(self.n as int, self.sum as int, self.sq_sum as int),
                spread_of(other.n as int, other.sum as int, other.sq_sum as int),
                a as int,
                b as int,
                c as int,
            ),
    {
        self.combo_reaches(other, a, b, c, false)
    }

    /// a·var(self) − b·var(other) > c, for two samples of the same size.
    pub fn variances_combo_above(&self, other: &PixelStats, a: u8, b: u8, c: u16) -> (r: bool)
        requires
            self.wf(),
            other.wf(),
            self.n == other.n,
            self.n > 0,
        ensures
            r == spreads_combo_gt(
                self.n as int,
                spread_of(self.n as int, self.sum as int, self.sq_sum as int),
                spread_of(other.n as int, other.sum as int, other.sq_sum as int),
                a as int,
                b as int,
                c as int,
            ),
    {
        self.combo_reaches(other, a, b, c, true)
    }
}

/// How many of `data[lo..hi]` are at least `t`.
pub fn count_at_least_in(data: &Vec<u8>, lo: usize, hi: usize, t: u8) -> (c: usize)
    requires
        lo <= hi <= data.len(),
    ensures
        c == count_at_least(data@.subrange(lo as int, hi as int), t),
{
    let mut c: usize = 0;
    let mut i: usize = lo;
    while i < hi
        invariant
            lo <= i <= hi <= data.len(),
            c == count_at_least(data@.subrange(lo as int, i as int), t),
            c <= i - lo,
        decreases hi - i,
    {
        proof {
            assert(data@.subrange(lo as int, i + 1).drop_last() =~= data@.subrange(lo as int, i as int));
        }
        if data[i] >= t {
            c += 1;
        }
        i += 1;
    }
    c
}

/// `count` out of `n` is a share of at least `num / den`.
pub fn share_reaches(count: usize, n: usize, num: u32, den: u32) -> (b: bool)
    ensures
        b == share_ge(count as int, n as int, num as int, den as int),
{
    if n == 0 {
        num == 0
    } else {
        proof {
            lemma_product_bound(den as int, 0xffff_ffff, count as int, 0xffff_ffff_ffff_ffff);
            lemma_product_bound(num as int, 0xffff_ffff, n as int, 0xffff_ffff_ffff_ffff);
        }
        (den as u128) * (count as u128) >= (num as u128) * (n as u128)
    }
}

} // verus!
