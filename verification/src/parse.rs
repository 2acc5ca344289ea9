//! Splitting and number parsing over character sequences, with the meaning
//! of the corresponding `str` methods: `trim`, `lines`, `splitn`, `split`
//! and integer `parse`.
use vstd::prelude::*;

use crate::text::{chars_of, string_of};

verus! {

// ── Whitespace and trimming ─────────────────────────────────────────────────

/// Unicode `White_Space`, as `char::is_whitespace`.
pub open spec fn is_ws(c: char) -> bool {
    ('\u{9}' <= c && c <= '\u{d}') || c == ' ' || c == '\u{85}' || c == '\u{a0}' || c == '\u{1680}'
        || ('\u{2000}' <= c && c <= '\u{200a}') || c == '\u{2028}' || c == '\u{2029}' || c == '\u{202f}'
        || c == '\u{205f}' || c == '\u{3000}'
}

pub fn is_whitespace(c: char) -> (b: bool)
    ensures
        b == is_ws(c),
{
    ('\u{9}' <= c && c <= '\u{d}') || c == ' ' || c == '\u{85}' || c == '\u{a0}' || c == '\u{1680}'
        || ('\u{2000}' <= c && c <= '\u{200a}') || c == '\u{2028}' || c == '\u{2029}' || c == '\u{202f}'
        || c == '\u{205f}' || c == '\u{3000}'
}

/// `s` without leading whitespace.
pub open spec fn trim_start_spec(s: Seq<char>) -> Seq<char>
    decreases s.len(),
{
    if s.len() > 0 && is_ws(s[0]) {
        trim_start_spec(s.drop_first())
    } else {
        s
    }
}

/// `s` without trailing whitespace.
pub open spec fn trim_end_spec(s: Seq<char>) -> Seq<char>
    decreases s.len(),
{
    if s.len() > 0 && is_ws(s.last()) {
        trim_end_spec(s.drop_last())
    } else {
        s
    }
}

/// `s` without leading and trailing whitespace, as `str::trim`.
pub open spec fn trim_spec(s: Seq<char>) -> Seq<char> {
    trim_end_spec(trim_start_spec(s))
}

proof fn lemma_trim_start(s: Seq<char>, i: int)
    requires
        0 <= i <= s.len(),
        forall|k: int| 0 <= k < i ==> is_ws(s[k]),
        i == s.len() || !is_ws(s[i]),
    ensures
        trim_start_spec(s) == s.subrange(i, s.len() as int),
    decreases i,
{
    if i > 0 {
        lemma_trim_start(s.drop_first(), i - 1);
        assert(s.drop_first().subrange(i - 1, s.len() - 1) == s.subrange(i, s.len() as int));
    } else {
        assert(s.subrange(0, s.len() as int) == s);
    }
}

proof fn lemma_trim_end(s: Seq<char>, j: int)
    requires
        0 <= j <= s.len(),
        forall|k: int| j <= k < s.len() ==> is_ws(s[k]),
        j == 0 || !is_ws(s[j - 1]),
    ensures
        trim_end_spec(s) == s.subrange(0, j),
    decreases s.len() - j,
{
    if j < s.len() {
        lemma_trim_end(s.drop_last(), j);
        assert(s.drop_last().subrange(0, j) == s.subrange(0, j));
    } else {
        assert(s.subrange(0, j) == s);
    }
}

/// The bounds of `v` without leading and trailing whitespace.
pub fn trim_bounds(v: &Vec<char>, from: usize, to: usize) -> (r: (usize, usize))
    requires
        from <= to <= v.len(),
    ensures
        from <= r.0 <= r.1 <= to,
        v@.subrange(r.0 as int, r.1 as int) == trim_spec(v@.subrange(from as int, to as int)),
{
    let ghost s = v@.subrange(from as int, to as int);
    let mut i = from;
    while i < to && is_whitespace(v[i])
        invariant
            from <= i <= to <= v.len(),
            forall|k: int| from <= k < i ==> is_ws(v@[k]),
        decreases to - i,
    {
        i += 1;
    }
    proof {
        lemma_trim_start(s, i - from);
        assert(s.subrange(i - from, s.len() as int) == v@.subrange(i as int, to as int));
    }
    let mut j = to;
    while j > i && is_whitespace(v[j - 1])
        invariant
            from <= i <= j <= to <= v.len(),
            forall|k: int| j <= k < to ==> is_ws(v@[k]),
        decreases j - i,
    {
        j -= 1;
    }
    proof {
        let t = v@.subrange(i as int, to as int);
        if j > i {
            lemma_trim_end(t, j - i);
        } else {
            lemma_trim_end(t, 0);
        }
        assert(t.subrange(0, j - i) == v@.subrange(i as int, j as int));
    }
    (i, j)
}

/// `s` without leading and trailing whitespace, as a new string.
pub fn trim_string(s: &str) -> (r: String)
    ensures
        r@ == trim_spec(s@),
{
    let v = chars_of(s);
    let (a, b) = trim_bounds(&v, 0, v.len());
    proof {
        assert(v@.subrange(0, v@.len() as int) == v@);
    }
    string_of(&v, a, b)
}

// ── Splitting ───────────────────────────────────────────────────────────────

/// Index of the first `c` in `s`, or `s.len()` when there is none.
pub open spec fn sep_index(s: Seq<char>, c: char) -> int
    decreases s.len(),
{
    if s.len() == 0 {
        0
    } else if s[0] == c {
        0
    } else {
        1 + sep_index(s.drop_first(), c)
    }
}

pub proof fn lemma_sep_index_bounds(s: Seq<char>, c: char)
    ensures
        0 <= sep_index(s, c) <= s.len(),
    decreases s.len(),
{
    if s.len() > 0 && s[0] != c {
        lemma_sep_index_bounds(s.drop_first(), c);
    }
}

proof fn lemma_sep_index(s: Seq<char>, c: char, k: int)
    requires
        0 <= k <= s.len(),
        forall|j: int| 0 <= j < k ==> s[j] != c,
        k == s.len() || s[k] == c,
    ensures
        sep_index(s, c) == k,
    decreases k,
{
    if k > 0 {
        lemma_sep_index(s.drop_first(), c, k - 1);
    }
}

/// The pieces of `s` between occurrences of `c`, at most `n` of them (the
/// last holds the rest), as `str::splitn` for `n >= 1`.
pub open spec fn splitn_spec(s: Seq<char>, n: int, c: char) -> Seq<Seq<char>>
    decreases s.len(),
{
    let k = sep_index(s, c);
    if n <= 1 || k >= s.len() {
        seq![s]
    } else {
        proof {
            lemma_sep_index_bounds(s, c);
        }
        seq![s.take(k)] + splitn_spec(s.skip(k + 1), n - 1, c)
    }
}

/// All pieces of `s` between occurrences of `c`, as `str::split`.
pub open spec fn split_spec(s: Seq<char>, c: char) -> Seq<Seq<char>>
    decreases s.len(),
{
    let k = sep_index(s, c);
    if k >= s.len() {
        seq![s]
    } else {
        proof {
            lemma_sep_index_bounds(s, c);
        }
        seq![s.take(k)] + split_spec(s.skip(k + 1), c)
    }
}

/// A line without one trailing `\r`.
pub open spec fn strip_cr(t: Seq<char>) -> Seq<char> {
    if t.len() > 0 && t.last() == '\r' {
        t.drop_last()
    } else {
        t
    }
}

/// The lines of `s`, as `str::lines`: split at `\n`, one `\r` before each
/// `\n` dropped, no empty last line after a final `\n`.
pub open spec fn lines_spec(s: Seq<char>) -> Seq<Seq<char>>
    decreases s.len(),
{
    if s.len() == 0 {
        Seq::empty()
    } else {
        let k = sep_index(s, '\n');
        if k >= s.len() {
            seq![s]
        } else {
            proof {
                lemma_sep_index_bounds(s, '\n');
            }
            seq![strip_cr(s.take(k))] + lines_spec(s.skip(k + 1))
        }
    }
}

/// First index at or after `from` (and before `to`) holding `c`, or `to`.
fn find_char(v: &Vec<char>, from: usize, to: usize, c: char) -> (r: usize)
    requires
        from <= to <= v.len(),
    ensures
        from <= r <= to,
        sep_index(v@.subrange(from as int, to as int), c) == r - from,
{
    let mut i = from;
    while i < to && v[i] != c
        invariant
            from <= i <= to <= v.len(),
            forall|k: int| from <= k < i ==> v@[k] != c,
        decreases to - i,
    {
        i += 1;
    }
    proof {
        lemma_sep_index(v@.subrange(from as int, to as int), c, i - from);
    }
    i
}

/// Bounds of the pieces of `v[from..to]` split at `c`, at most `n` pieces.
pub fn splitn_bounds(v: &Vec<char>, from: usize, to: usize, n: usize, c: char) -> (r: Vec<(usize, usize)>)
    requires
        from <= to <= v.len(),
        n >= 1,
    ensures
        r@.len() == splitn_spec(v@.subrange(from as int, to as int), n as int, c).len(),
        forall|i: int| 0 <= i < r@.len() ==> (#[trigger] r@[i]).0 <= r@[i].1 <= v.len() && v@.subrange(r@[i].0 as int, r@[i].1 as int)
            == splitn_spec(v@.subrange(from as int, to as int), n as int, c)[i],
{
    let mut r: Vec<(usize, usize)> = Vec::new();
    let mut start = from;
    let mut left = n;
    let ghost whole = splitn_spec(v@.subrange(from as int, to as int), n as int, c);
    loop
        invariant_except_break
            from <= start <= to <= v.len(),
            1 <= left,
            whole == r@.map_values(|p: (usize, usize)| v@.subrange(p.0 as int, p.1 as int)) + splitn_spec(
                v@.subrange(start as int, to as int),
                left as int,
                c,
            ),
            forall|i: int| 0 <= i < r@.len() ==> (#[trigger] r@[i]).0 <= r@[i].1 <= v.len(),
        ensures
            whole == r@.map_values(|p: (usize, usize)| v@.subrange(p.0 as int, p.1 as int)),
            forall|i: int| 0 <= i < r@.len() ==> (#[trigger] r@[i]).0 <= r@[i].1 <= v.len(),
        decreases to - start,
    {
        let ghost s = v@.subrange(start as int, to as int);
        let k = find_char(v, start, to, c);
        if left <= 1 || k >= to {
            let ghost before = r@.map_values(|p: (usize, usize)| v@.subrange(p.0 as int, p.1 as int));
            r.push((start, to));
            proof {
                assert(r@.map_values(|p: (usize, usize)| v@.subrange(p.0 as int, p.1 as int)) == before.push(s));
                assert(before + seq![s] == before.push(s));
            }
            break;
        }
        let ghost before = r@.map_values(|p: (usize, usize)| v@.subrange(p.0 as int, p.1 as int));
        r.push((start, k));
        proof {
            assert(s.take(k - start) == v@.subrange(start as int, k as int));
            assert(s.skip(k - start + 1) == v@.subrange(k + 1, to as int));
            assert(r@.map_values(|p: (usize, usize)| v@.subrange(p.0 as int, p.1 as int)) == before.push(
                v@.subrange(start as int, k as int),
            ));
            assert(before + (seq![s.take(k - start)] + splitn_spec(s.skip(k - start + 1), left - 1, c))
                == before.push(v@.subrange(start as int, k as int)) + splitn_spec(v@.subrange(k + 1, to as int), left - 1, c));
        }
        start = k + 1;
        left = left - 1;
    }
    proof {
        assert forall|i: int| 0 <= i < r@.len() implies (#[trigger] r@[i]).0 <= r@[i].1 <= v.len() && v@.subrange(
            r@[i].0 as int,
            r@[i].1 as int,
        ) == whole[i] by {
            assert(whole[i] == r@.map_values(|p: (usize, usize)| v@.subrange(p.0 as int, p.1 as int))[i]);
        }
    }
    r
}

/// Bounds of all pieces of `v[from..to]` split at `c`.
pub fn split_bounds(v: &Vec<char>, from: usize, to: usize, c: char) -> (r: Vec<(usize, usize)>)
    requires
        from <= to <= v.len(),
    ensures
        r@.len() == split_spec(v@.subrange(from as int, to as int), c).len(),
        forall|i: int| 0 <= i < r@.len() ==> (#[trigger] r@[i]).0 <= r@[i].1 <= v.len() && v@.subrange(r@[i].0 as int, r@[i].1 as int)
            == split_spec(v@.subrange(from as int, to as int), c)[i],
{
    let mut r: Vec<(usize, usize)> = Vec::new();
    let mut start = from;
    let ghost whole = split_spec(v@.subrange(from as int, to as int), c);
    loop
        invariant_except_break
            from <= start <= to <= v.len(),
            whole == r@.map_values(|p: (usize, usize)| v@.subrange(p.0 as int, p.1 as int)) + split_spec(
                v@.subrange(start as int, to as int),
                c,
            ),
            forall|i: int| 0 <= i < r@.len() ==> (#[trigger] r@[i]).0 <= r@[i].1 <= v.len(),
        ensures
            whole == r@.map_values(|p: (usize, usize)| v@.subrange(p.0 as int, p.1 as int)),
            forall|i: int| 0 <= i < r@.len() ==> (#[trigger] r@[i]).0 <= r@[i].1 <= v.len(),
        decreases to - start,
    {
        let ghost s = v@.subrange(start as int, to as int);
        let k = find_char(v, start, to, c);
        let ghost before = r@.map_values(|p: (usize, usize)| v@.subrange(p.0 as int, p.1 as int));
        if k >= to {
            r.push((start, to));
            proof {
                assert(r@.map_values(|p: (usize, usize)| v@.subrange(p.0 as int, p.1 as int)) == before.push(s));
                assert(before + seq![s] == before.push(s));
            }
            break;
        }
        r.push((start, k));
        proof {
            assert(s.take(k - start) == v@.subrange(start as int, k as int));
            assert(s.skip(k - start + 1) == v@.subrange(k + 1, to as int));
            assert(r@.map_values(|p: (usize, usize)| v@.subrange(p.0 as int, p.1 as int)) == before.push(
                v@.subrange(start as int, k as int),
            ));
            assert(before + (seq![s.take(k - start)] + split_spec(s.skip(k - start + 1), c))
                == before.push(v@.subrange(start as int, k as int)) + split_spec(v@.subrange(k + 1, to as int), c));
        }
        start = k + 1;
    }
    proof {
        assert forall|i: int| 0 <= i < r@.len() implies (#[trigger] r@[i]).0 <= r@[i].1 <= v.len() && v@.subrange(
            r@[i].0 as int,
            r@[i].1 as int,
        ) == whole[i] by {
            assert(whole[i] == r@.map_values(|p: (usize, usize)| v@.subrange(p.0 as int, p.1 as int))[i]);
        }
    }
    r
}

/// Bounds of the lines of `v`, as `str::lines`.
pub fn lines_bounds(v: &Vec<char>) -> (r: Vec<(usize, usize)>)
    ensures
        r@.len() == lines_spec(v@).len(),
        forall|i: int| 0 <= i < r@.len() ==> (#[trigger] r@[i]).0 <= r@[i].1 <= v.len() && v@.subrange(r@[i].0 as int, r@[i].1 as int)
            == lines_spec(v@)[i],
{
    let mut r: Vec<(usize, usize)> = Vec::new();
    let mut start: usize = 0;
    let to = v.len();
    let ghost whole = lines_spec(v@);
    proof {
        assert(v@.subrange(0, to as int) == v@);
    }
    while start < to
        invariant
            start <= to == v.len(),
            whole == r@.map_values(|p: (usize, usize)| v@.subrange(p.0 as int, p.1 as int)) + lines_spec(
                v@.subrange(start as int, to as int),
            ),
            forall|i: int| 0 <= i < r@.len() ==> (#[trigger] r@[i]).0 <= r@[i].1 <= v.len(),
        decreases to - start,
    {
        let ghost s = v@.subrange(start as int, to as int);
        let k = find_char(v, start, to, '\n');
        let ghost before = r@.map_values(|p: (usize, usize)| v@.subrange(p.0 as int, p.1 as int));
        if k >= to {
            r.push((start, to));
            proof {
                assert(r@.map_values(|p: (usize, usize)| v@.subrange(p.0 as int, p.1 as int)) == before.push(s));
                assert(before + seq![s] == before.push(s));
                assert(v@.subrange(to as int, to as int) =~= Seq::<char>::empty());
            }
            start = to;
        } else {
            let end = if k > start && v[k - 1] == '\r' { k - 1 } else { k };
            r.push((start, end));
            proof {
                assert(s.take(k - start) == v@.subrange(start as int, k as int));
                assert(strip_cr(s.take(k - start)) == v@.subrange(start as int, end as int));
                assert(s.skip(k - start + 1) == v@.subrange(k + 1, to as int));
                assert(r@.map_values(|p: (usize, usize)| v@.subrange(p.0 as int, p.1 as int)) == before.push(
                    v@.subrange(start as int, end as int),
                ));
                assert(before + (seq![strip_cr(s.take(k - start))] + lines_spec(s.skip(k - start + 1)))
                    == before.push(v@.subrange(start as int, end as int)) + lines_spec(v@.subrange(k + 1, to as int)));
            }
            start = k + 1;
        }
    }
    proof {
        assert(lines_spec(v@.subrange(to as int, to as int)) == Seq::<Seq<char>>::empty());
        let m = r@.map_values(|p: (usize, usize)| v@.subrange(p.0 as int, p.1 as int));
        assert(whole == m + Seq::<Seq<char>>::empty());
        assert(whole == m);
        assert forall|i: int| 0 <= i < r@.len() implies (#[trigger] r@[i]).0 <= r@[i].1 <= v.len() && v@.subrange(
            r@[i].0 as int,
            r@[i].1 as int,
        ) == whole[i] by {
            assert(whole[i] == m[i]);
        }
    }
    r
}

// ── Integer parsing ─────────────────────────────────────────────────────────

/// Why an integer did not parse, as `std::num::IntErrorKind`.
#[derive(Clone, Copy, Debug, PartialEq, Eq, Structural)]
pub enum IntErrorKind {
    Empty,
    InvalidDigit,
    PosOverflow,
    NegOverflow,
}

/// The text a parse error is displayed as.
pub open spec fn int_error_text(k: IntErrorKind) -> Seq<char> {
    match k {
        IntErrorKind::Empty => "cannot parse integer from empty string"@,
        IntErrorKind::InvalidDigit => "invalid digit found in string"@,
        IntErrorKind::PosOverflow => "number too large to fit in target type"@,
        IntErrorKind::NegOverflow => "number too small to fit in target type"@,
    }
}

impl IntErrorKind {
    pub fn message(&self) -> (r: &'static str)
        ensures
            r@ == int_error_text(*self),
    {
        match self {
            IntErrorKind::Empty => "cannot parse integer from empty string",
            IntErrorKind::InvalidDigit => "invalid digit found in string",
            IntErrorKind::PosOverflow => "number too large to fit in target type",
            IntErrorKind::NegOverflow => "number too small to fit in target type",
        }
    }
}

pub open spec fn is_digit(c: char) -> bool {
    '0' <= c && c <= '9'
}

/// Digits read left to right onto `acc`; the first non-digit or the first
/// step out of `lo..=hi` is the error.
pub open spec fn accumulate(s: Seq<char>, acc: int, neg: bool, lo: int, hi: int) -> Result<int, IntErrorKind>
    decreases s.len(),
{
    if s.len() == 0 {
        Ok(acc)
    } else if !is_digit(s[0]) {
        Err(IntErrorKind::InvalidDigit)
    } else {
        let d = s[0] as int - '0' as int;
        let next = if neg { acc * 10 - d } else { acc * 10 + d };
        if next < lo {
            Err(IntErrorKind::NegOverflow)
        } else if next > hi {
            Err(IntErrorKind::PosOverflow)
        } else {
            accumulate(s.drop_first(), next, neg, lo, hi)
        }
    }
}

/// Decimal integer parsing as `str::parse` for an integer type with range
/// `lo..=hi`: an optional `+` (or `-` for signed types), then digits.
pub open spec fn parse_int_spec(s: Seq<char>, signed: bool, lo: int, hi: int) -> Result<int, IntErrorKind> {
    if s.len() == 0 {
        Err(IntErrorKind::Empty)
    } else if s[0] == '+' || (signed && s[0] == '-') {
        if s.len() == 1 {
            Err(IntErrorKind::InvalidDigit)
        } else {
            accumulate(s.drop_first(), 0, s[0] == '-', lo, hi)
        }
    } else {
        accumulate(s, 0, false, lo, hi)
    }
}

fn parse_int(v: &Vec<char>, from: usize, to: usize, signed: bool, lo: i128, hi: i128) -> (r: Result<i128, IntErrorKind>)
    requires
        from <= to <= v.len(),
        -0x1_0000_0000_0000_0000 <= lo <= 0 <= hi <= 0x1_0000_0000_0000_0000,
    ensures
        match parse_int_spec(v@.subrange(from as int, to as int), signed, lo as int, hi as int) {
            Ok(x) => r == Ok::<i128, IntErrorKind>(x as i128),
            Err(e) => r == Err::<i128, IntErrorKind>(e),
        },
{
    let ghost s = v@.subrange(from as int, to as int);
    if from == to {
        return Err(IntErrorKind::Empty);
    }
    let first = v[from];
    let mut i = from;
    let mut neg = false;
    if first == '+' || (signed && first == '-') {
        if to - from == 1 {
            return Err(IntErrorKind::InvalidDigit);
        }
        neg = first == '-';
        i = from + 1;
        proof {
            assert(s.drop_first() == v@.subrange(i as int, to as int));
        }
    }
    let mut acc: i128 = 0;
    while i < to
        invariant
            from <= i <= to <= v.len(),
            s == v@.subrange(from as int, to as int),
            lo <= acc <= hi,
            -0x1_0000_0000_0000_0000 <= lo <= 0 <= hi <= 0x1_0000_0000_0000_0000,
            parse_int_spec(s, signed, lo as int, hi as int) == accumulate(
                v@.subrange(i as int, to as int),
                acc as int,
                neg,
                lo as int,
                hi as int,
            ),
        decreases to - i,
    {
        let ghost rest = v@.subrange(i as int, to as int);
        let c = v[i];
        assert(rest[0] == c);
        if !('0' <= c && c <= '9') {
            return Err(IntErrorKind::InvalidDigit);
        }
        let d = (c as u32 - '0' as u32) as i128;
        let next = if neg { acc * 10 - d } else { acc * 10 + d };
        if next < lo {
            return Err(IntErrorKind::NegOverflow);
        }
        if next > hi {
            return Err(IntErrorKind::PosOverflow);
        }
        proof {
            assert(rest.drop_first() == v@.subrange(i + 1, to as int));
        }
        acc = next;
        i += 1;
    }
    assert(v@.subrange(i as int, to as int).len() == 0);
    Ok(acc)
}

/// `v[from..to]` parsed as an `i32`.
pub fn parse_i32(v: &Vec<char>, from: usize, to: usize) -> (r: Result<i32, IntErrorKind>)
    requires
        from <= to <= v.len(),
    ensures
        match parse_int_spec(v@.subrange(from as int, to as int), true, i32::MIN as int, i32::MAX as int) {
            Ok(x) => r == Ok::<i32, IntErrorKind>(x as i32),
            Err(e) => r == Err::<i32, IntErrorKind>(e),
        },
{
    match parse_int(v, from, to, true, i32::MIN as i128, i32::MAX as i128) {
        Ok(x) => {
            proof {
                lemma_accumulate_range(v@.subrange(from as int, to as int), true, i32::MIN as int, i32::MAX as int);
            }
            Ok(x as i32)
        },
        Err(e) => Err(e),
    }
}

/// `v[from..to]` parsed as a `usize`.
pub fn parse_usize(v: &Vec<char>, from: usize, to: usize) -> (r: Result<usize, IntErrorKind>)
    requires
        from <= to <= v.len(),
    ensures
        match parse_int_spec(v@.subrange(from as int, to as int), false, 0, usize::MAX as int) {
            Ok(x) => r == Ok::<usize, IntErrorKind>(x as usize),
            Err(e) => r == Err::<usize, IntErrorKind>(e),
        },
{
    match parse_int(v, from, to, false, 0, usize::MAX as i128) {
        Ok(x) => {
            proof {
                lemma_accumulate_range(v@.subrange(from as int, to as int), false, 0, usize::MAX as int);
            }
            Ok(x as usize)
        },
        Err(e) => Err(e),
    }
}

proof fn lemma_accumulate_bounds(s: Seq<char>, acc: int, neg: bool, lo: int, hi: int)
    requires
        lo <= acc <= hi,
    ensures
        accumulate(s, acc, neg, lo, hi) matches Ok(x) ==> lo <= x <= hi,
    decreases s.len(),
{
    if s.len() > 0 && is_digit(s[0]) {
        let d = s[0] as int - '0' as int;
        let next = if neg { acc * 10 - d } else { acc * 10 + d };
        if lo <= next <= hi {
            lemma_accumulate_bounds(s.drop_first(), next, neg, lo, hi);
        }
    }
}

proof fn lemma_accumulate_range(s: Seq<char>, signed: bool, lo: int, hi: int)
    requires
        lo <= 0 <= hi,
    ensures
        parse_int_spec(s, signed, lo, hi) matches Ok(x) ==> lo <= x <= hi,
{
    if s.len() > 0 {
        lemma_accumulate_bounds(s.drop_first(), 0, s[0] == '-', lo, hi);
        lemma_accumulate_bounds(s, 0, false, lo, hi);
    }
}

} // verus!
