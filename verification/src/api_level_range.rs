//! Inclusive ranges of Android API levels, such as `7`, `7-28` or `7..=28`.

use vstd::prelude::*;
use vstd::string::*;
use std::ops::RangeInclusive;
use std::str::FromStr;
use crate::text::{chars_of, find_char, find_char_from, is_ascii_digit, lemma_find_char, lemma_find_char_at};

verus! {

/// The range type an `ApiLevelRange` wraps.
pub type RawApiLevelRange = RangeInclusive<u32>;

/// An inclusive range of API levels.
#[derive(Clone, Debug, PartialEq, Eq)]
pub struct ApiLevelRange(pub RawApiLevelRange);

/// `RangeInclusive::start`: the lower bound, which the standard library leaves unspecified once
/// the range has been iterated to exhaustion.
pub assume_specification<Idx>[ RangeInclusive::<Idx>::start ](r: &RangeInclusive<Idx>) -> (s: &Idx)
    ensures
        !r@.exhausted ==> *s == r@.start,
;

/// `RangeInclusive::end`: the upper bound, which the standard library leaves unspecified once
/// the range has been iterated to exhaustion.
pub assume_specification<Idx>[ RangeInclusive::<Idx>::end ](r: &RangeInclusive<Idx>) -> (e: &Idx)
    ensures
        !r@.exhausted ==> *e == r@.end,
;

/// `Clone::clone` of a `RangeInclusive` (derived): clones of both bounds, and the same
/// iteration state.
pub assume_specification<Idx>[ <RangeInclusive<Idx> as Clone>::clone ](r: &RangeInclusive<Idx>) -> (c: RangeInclusive<Idx>)
    where
        Idx: Clone,
    ensures
        cloned(r@.start, c@.start),
        cloned(r@.end, c@.end),
        c@.exhausted == r@.exhausted,
;

/// The value of a string of decimal digits.
pub open spec fn digits_value(s: Seq<char>) -> int
    decreases s.len(),
{
    if s.len() == 0 {
        0
    } else {
        digits_value(s.drop_last()) * 10 + (s.last() as int - '0' as int)
    }
}

/// Every character is a decimal digit.
pub open spec fn all_digits(s: Seq<char>) -> bool {
    forall|i: int| 0 <= i < s.len() ==> #[trigger] is_ascii_digit(s[i])
}

/// What `str::parse::<u32>` accepts: an optional `+`, then one or more decimal digits whose value
/// fits in a `u32`.
pub open spec fn parse_u32_spec(s: Seq<char>) -> Option<u32> {
    let d = if s.len() > 0 && s[0] == '+' {
        s.drop_first()
    } else {
        s
    };
    if d.len() == 0 || !all_digits(d) || digits_value(d) > u32::MAX {
        None
    } else {
        Some(digits_value(d) as u32)
    }
}

proof fn lemma_digits_value_nonneg(s: Seq<char>)
    requires
        all_digits(s),
    ensures
        digits_value(s) >= 0,
    decreases s.len(),
{
    if s.len() > 0 {
        assert(is_ascii_digit(s[s.len() - 1]));
        assert(all_digits(s.drop_last())) by {
            assert forall|i: int| 0 <= i < s.drop_last().len() implies #[trigger] is_ascii_digit(s.drop_last()[i]) by {
                assert(is_ascii_digit(s[i]));
            }
        }
        lemma_digits_value_nonneg(s.drop_last());
    }
}

/// Parses a decimal `u32` as `str::parse::<u32>` does.
pub fn parse_u32(s: &[char]) -> (r: Option<u32>)
    ensures
        r == parse_u32_spec(s@),
{
    let mut i: usize = 0;
    if s.len() > 0 && s[0] == '+' {
        i = 1;
    }
    let start = i;
    let ghost d = s@.skip(start as int);
    proof {
        assert(d == (if s@.len() > 0 && s@[0] == '+' { s@.drop_first() } else { s@ }));
    }
    if start == s.len() {
        return None;
    }
    let mut acc: u64 = 0;
    let mut overflow = false;
    while i < s.len()
        invariant
            start <= i <= s@.len(),
            d == s@.skip(start as int),
            d == (if s@.len() > 0 && s@[0] == '+' { s@.drop_first() } else { s@ }),
            d.len() > 0,
            all_digits(d.take(i - start)),
            !overflow ==> acc == digits_value(d.take(i - start)) && acc <= u32::MAX,
            overflow ==> digits_value(d.take(i - start)) > u32::MAX,
        decreases s@.len() - i,
    {
        let c = s[i];
        if !('0' <= c && c <= '9') {
            proof {
                assert(!is_ascii_digit(d[i - start]));
            }
            return None;
        }
        proof {
            let k = i - start;
            assert(d.take(k + 1).drop_last() =~= d.take(k));
            assert(d.take(k + 1).last() == c);
            assert(all_digits(d.take(k + 1))) by {
                assert forall|j: int| 0 <= j < d.take(k + 1).len() implies #[trigger] is_ascii_digit(d.take(k + 1)[j]) by {
                    if j < k {
                        assert(d.take(k + 1)[j] == d.take(k)[j]);
                        assert(is_ascii_digit(d.take(k)[j]));
                    }
                }
            }
            lemma_digits_value_nonneg(d.take(k));
        }
        let digit = (c as u32 - '0' as u32) as u64;
        if !overflow {
            let next = acc * 10 + digit;
            if next > u32::MAX as u64 {
                overflow = true;
            } else {
                acc = next;
            }
        }
        i = i + 1;
    }
    proof {
        assert(d.take(i - start) =~= d);
    }
    if overflow {
        None
    } else {
        Some(acc as u32)
    }
}

/// The first index where `..=` begins.
pub open spec fn find_range_op(s: Seq<char>) -> Option<int>
    decreases s.len(),
{
    if s.len() < 3 {
        None
    } else if s[0] == '.' && s[1] == '.' && s[2] == '=' {
        Some(0)
    } else {
        match find_range_op(s.drop_first()) {
            Some(i) => Some(i + 1),
            None => None,
        }
    }
}

proof fn lemma_find_range_op_at(s: Seq<char>, i: int)
    requires
        0 <= i,
        i + 3 <= s.len() ==> !(s[i] == '.' && s[i + 1] == '.' && s[i + 2] == '=') || true,
        forall|j: int| 0 <= j < i && j + 3 <= s.len() ==> !(#[trigger] s[j] == '.' && s[j + 1] == '.' && s[j + 2] == '='),
    ensures
        i + 3 <= s.len() && s[i] == '.' && s[i + 1] == '.' && s[i + 2] == '=' ==> find_range_op(s) == Some(i),
        i + 3 > s.len() ==> find_range_op(s) is None,
    decreases i,
{
    if i > 0 && s.len() >= 3 {
        let t = s.drop_first();
        assert(!(s[0] == '.' && s[1] == '.' && s[2] == '='));
        assert forall|j: int| 0 <= j < i - 1 && j + 3 <= t.len() implies !(#[trigger] t[j] == '.' && t[j + 1] == '.' && t[j + 2] == '=') by {
            assert(t[j] == s[j + 1] && t[j + 1] == s[j + 2] && t[j + 2] == s[j + 3]);
            assert(!(s[j + 1] == '.' && s[j + 2] == '.' && s[j + 3] == '='));
        }
        lemma_find_range_op_at(t, i - 1);
    }
}

fn find_range_op_exec(s: &[char]) -> (r: Option<usize>)
    ensures
        match r {
            Some(i) => find_range_op(s@) == Some(i as int) && i + 3 <= s@.len(),
            None => find_range_op(s@) is None,
        },
{
    let mut i: usize = 0;
    while s.len() >= 3 && i <= s.len() - 3
        invariant
            forall|j: int| 0 <= j < i && j + 3 <= s@.len() ==> !(#[trigger] s@[j] == '.' && s@[j + 1] == '.' && s@[j + 2] == '='),
            i <= s@.len(),
        decreases s@.len() - i,
    {
        if s[i] == '.' && s[i + 1] == '.' && s[i + 2] == '=' {
            proof { lemma_find_range_op_at(s@, i as int); }
            return Some(i);
        }
        i = i + 1;
    }
    proof { lemma_find_range_op_at(s@, i as int); }
    None
}

/// Both bounds parsed, or neither.
pub open spec fn both(a: Option<u32>, b: Option<u32>) -> Option<(u32, u32)> {
    match (a, b) {
        (Some(x), Some(y)) => Some((x, y)),
        _ => None,
    }
}

/// The bounds that a string such as `7`, `7-28` or `7..=28` denotes.
pub open spec fn api_level_range_of(s: Seq<char>) -> Option<(u32, u32)> {
    match parse_u32_spec(s) {
        Some(n) => Some((n, n)),
        None => match find_char(s, '-') {
            Some(i) => both(parse_u32_spec(s.take(i)), parse_u32_spec(s.skip(i + 1))),
            None => match find_range_op(s) {
                Some(i) => both(parse_u32_spec(s.take(i)), parse_u32_spec(s.skip(i + 3))),
                None => None,
            },
        },
    }
}

fn slice_chars(v: &[char], from: usize, to: usize) -> (r: Vec<char>)
    requires
        from <= to <= v@.len(),
    ensures
        r@ == v@.subrange(from as int, to as int),
{
    let mut r: Vec<char> = Vec::new();
    let mut i = from;
    while i < to
        invariant
            from <= i <= to <= v@.len(),
            r@ == v@.subrange(from as int, i as int),
        decreases to - i,
    {
        r.push(v[i]);
        i = i + 1;
        assert(r@ =~= v@.subrange(from as int, i as int));
    }
    r
}

impl ApiLevelRange {
    /// The lowest API level in the range.
    pub fn start(&self) -> (s: u32)
        ensures
            !self.0@.exhausted ==> s == self.0@.start,
    {
        *self.0.start()
    }

    /// The highest API level in the range.
    pub fn end(&self) -> (e: u32)
        ensures
            !self.0@.exhausted ==> e == self.0@.end,
    {
        *self.0.end()
    }

    /// The API levels of the range, as a range to iterate over.
    pub fn iter(&self) -> (r: RawApiLevelRange)
        ensures
            r@ == self.0@,
    {
        self.0.clone()
    }
}

/// Parses `7`, `7-28`, `7..=28` and the like.
pub fn parse_api_level_range(s: &str) -> (r: Result<ApiLevelRange, &'static str>)
    ensures
        match api_level_range_of(s@) {
            Some((a, b)) => r is Ok && r->Ok_0.0@.start == a && r->Ok_0.0@.end == b && !r->Ok_0.0@.exhausted,
            None => r is Err,
        },
{
    let err = "Unable to parse API level range:  Expected '7', '7-28', or '7..=28' or similar integer ranges.";
    let v = chars_of(s);
    if let Some(single) = parse_u32(v.as_slice()) {
        return Ok(ApiLevelRange(RangeInclusive::new(single, single)));
    }
    match find_char_from(v.as_slice(), 0, '-') {
        Some(dash) => {
            let len = v.len();
            assert(0 + dash < len);
            proof { assert(v@.skip(0) =~= v@); }
            let start = slice_chars(v.as_slice(), 0, dash);
            let end = slice_chars(v.as_slice(), dash + 1, v.len());
            proof {
                assert(start@ =~= v@.take(dash as int));
                assert(end@ =~= v@.skip(dash + 1));
            }
            match (parse_u32(start.as_slice()), parse_u32(end.as_slice())) {
                (Some(a), Some(b)) => Ok(ApiLevelRange(RangeInclusive::new(a, b))),
                _ => Err(err),
            }
        },
        None => {
            proof { assert(v@.skip(0) =~= v@); }
            match find_range_op_exec(v.as_slice()) {
                Some(op) => {
                    let start = slice_chars(v.as_slice(), 0, op);
                    assert(op + 3 <= v@.len());
                    let end = slice_chars(v.as_slice(), op + 3, v.len());
                    proof {
                        assert(start@ =~= v@.take(op as int));
                        assert(end@ =~= v@.skip(op + 3));
                    }
                    match (parse_u32(start.as_slice()), parse_u32(end.as_slice())) {
                        (Some(a), Some(b)) => Ok(ApiLevelRange(RangeInclusive::new(a, b))),
                        _ => Err(err),
                    }
                },
                None => Err(err),
            }
        },
    }
}

impl FromStr for ApiLevelRange {
    type Err = &'static str;

    fn from_str(s: &str) -> (r: Result<Self, Self::Err>)
        ensures
            match api_level_range_of(s@) {
                Some((a, b)) => r is Ok && r->Ok_0.0@.start == a && r->Ok_0.0@.end == b && !r->Ok_0.0@.exhausted,
                None => r is Err,
            },
    {
        parse_api_level_range(s)
    }
}


/// A string of digits followed by another character does not parse as a number.
proof fn lemma_not_number(a: Seq<char>, rest: Seq<char>)
    requires
        a.len() > 0,
        all_digits(a),
        rest.len() > 0,
        !is_ascii_digit(rest[0]),
    ensures
        parse_u32_spec(a + rest) is None,
{
    let s = a + rest;
    assert(is_ascii_digit(a[0]));
    assert(s[0] == a[0]);
    assert(s[a.len() as int] == rest[0]);
    assert(!all_digits(s));
}

/// `a-b` and `a..=b` are the same range.
pub proof fn law_dash_and_range_operator_agree(a: Seq<char>, b: Seq<char>)
    requires
        a.len() > 0,
        b.len() > 0,
        all_digits(a),
        all_digits(b),
    ensures
        api_level_range_of(a + "-"@ + b) == api_level_range_of(a + "..="@ + b),
{
    reveal_strlit("-");
    reveal_strlit("..=");
    let s1 = a + "-"@ + b;
    let s2 = a + "..="@ + b;
    assert(s1 =~= a + ("-"@ + b));
    assert(s2 =~= a + ("..="@ + b));
    lemma_not_number(a, "-"@ + b);
    lemma_not_number(a, "..="@ + b);
    assert forall|j: int| 0 <= j < a.len() implies s1[j] != '-' by {
        assert(s1[j] == a[j]);
        assert(is_ascii_digit(a[j]));
    }
    lemma_find_char_at(s1, '-', a.len() as int);
    assert(s1.take(a.len() as int) =~= a);
    assert(s1.skip(a.len() as int + 1) =~= b);
    assert forall|j: int| 0 <= j < s2.len() implies s2[j] != '-' by {
        if j < a.len() {
            assert(s2[j] == a[j]);
            assert(is_ascii_digit(a[j]));
        } else if j >= a.len() + 3 {
            assert(s2[j] == b[j - a.len() - 3]);
            assert(is_ascii_digit(b[j - a.len() - 3]));
        }
    }
    lemma_find_char_at(s2, '-', s2.len() as int);
    assert forall|j: int| 0 <= j < a.len() && j + 3 <= s2.len() implies !(#[trigger] s2[j] == '.' && s2[j + 1] == '.' && s2[j + 2] == '=') by {
        assert(s2[j] == a[j]);
        assert(is_ascii_digit(a[j]));
    }
    lemma_find_range_op_at(s2, a.len() as int);
    assert(s2.take(a.len() as int) =~= a);
    assert(s2.skip(a.len() as int + 3) =~= b);
}

/// A single level `n` is the range `n..=n`.
pub proof fn law_single_level_is_range(a: Seq<char>)
    requires
        a.len() > 0,
        all_digits(a),
    ensures
        api_level_range_of(a) == api_level_range_of(a + "..="@ + a),
{
    reveal_strlit("..=");
    let s2 = a + "..="@ + a;
    assert(s2 =~= a + ("..="@ + a));
    lemma_not_number(a, "..="@ + a);
    assert forall|j: int| 0 <= j < s2.len() implies s2[j] != '-' by {
        if j < a.len() {
            assert(s2[j] == a[j]);
            assert(is_ascii_digit(a[j]));
        } else if j >= a.len() + 3 {
            assert(s2[j] == a[j - a.len() - 3]);
            assert(is_ascii_digit(a[j - a.len() - 3]));
        }
    }
    lemma_find_char_at(s2, '-', s2.len() as int);
    assert forall|j: int| 0 <= j < a.len() && j + 3 <= s2.len() implies !(#[trigger] s2[j] == '.' && s2[j + 1] == '.' && s2[j + 2] == '=') by {
        assert(s2[j] == a[j]);
        assert(is_ascii_digit(a[j]));
    }
    lemma_find_range_op_at(s2, a.len() as int);
    assert(s2.take(a.len() as int) =~= a);
    assert(s2.skip(a.len() as int + 3) =~= a);
    assert(a[0] != '+') by { assert(is_ascii_digit(a[0])); }
    assert forall|j: int| 0 <= j < a.len() implies a[j] != '-' by {
        assert(is_ascii_digit(a[j]));
    }
    lemma_find_char_at(a, '-', a.len() as int);
    assert forall|j: int| 0 <= j < a.len() && j + 3 <= a.len() implies !(#[trigger] a[j] == '.' && a[j + 1] == '.' && a[j + 2] == '=') by {
        assert(is_ascii_digit(a[j]));
    }
    lemma_find_range_op_at(a, a.len() as int);
}

} // verus!
