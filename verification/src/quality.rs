//! The quality range option: `"N"`, `"-N"`, `"N-"` or `"N-M"`, split at
//! the first `-`, with N,M numbers between 0 and 100 and floor not above
//! ceiling.

use vstd::prelude::*;
use crate::numbers::{parses_as_u8, u8_val, parse_u8};

verus! {

/// Index of the first `-` in `s`, or `s.len()` if there is none.
pub open spec fn first_dash(s: Seq<char>) -> int
    decreases s.len(),
{
    if s.len() == 0 {
        0
    } else if s[0] == '-' {
        0
    } else {
        1 + first_dash(s.subrange(1, s.len() as int))
    }
}

/// `first_dash` points at the first `-`, or past the end when there is none.
pub proof fn lemma_first_dash(s: Seq<char>)
    ensures
        0 <= first_dash(s) <= s.len(),
        first_dash(s) < s.len() ==> s[first_dash(s)] == '-',
        forall|i: int| 0 <= i < first_dash(s) ==> #[trigger] s[i] != '-',
    decreases s.len(),
{
    if s.len() > 0 && s[0] != '-' {
        let t = s.subrange(1, s.len() as int);
        lemma_first_dash(t);
        assert forall|i: int| 0 <= i < first_dash(s) implies #[trigger] s[i] != '-' by {
            if i > 0 {
                assert(s[i] == t[i - 1]);
            }
        }
    }
}

/// Any position with the properties of `first_dash` is `first_dash`.
pub proof fn lemma_first_dash_is(s: Seq<char>, p: int)
    requires
        0 <= p <= s.len(),
        p < s.len() ==> s[p] == '-',
        forall|i: int| 0 <= i < p ==> #[trigger] s[i] != '-',
    ensures
        first_dash(s) == p,
    decreases s.len(),
{
    if s.len() > 0 && s[0] != '-' {
        let t = s.subrange(1, s.len() as int);
        assert(p > 0);
        assert forall|i: int| 0 <= i < p - 1 implies #[trigger] t[i] != '-' by {
            assert(t[i] == s[i + 1]);
        }
        lemma_first_dash_is(t, p - 1);
    }
}

/// Is `s` a valid quality number: a number token with a value of at most
/// 100?
pub open spec fn parses_as_quality(s: Seq<char>) -> bool {
    parses_as_u8(s) && u8_val(s) <= 100
}

/// Meaning of a quality option string: the resulting (floor, ceiling) pair,
/// or the rejection message. A side that is no number in 0..=100 is named
/// as invalid; a ceiling below the floor is rejected with the range
/// message. A lone number `N` derives the floor as 90% of N; `-N` means up
/// to N; `N-` means at least N.
pub open spec fn spec_parse_quality(s: Seq<char>) -> Result<(u8, u8), Seq<char>> {
    let p = first_dash(s);
    if p == s.len() {
        if parses_as_quality(s) {
            Ok(((u8_val(s) * 9 / 10) as u8, u8_val(s) as u8))
        } else {
            Err("Quality value is not a number"@)
        }
    } else {
        let l = s.subrange(0, p);
        let r = s.subrange(p + 1, s.len() as int);
        if r.len() == 0 {
            if parses_as_quality(l) {
                Ok((u8_val(l) as u8, 100))
            } else {
                Err("First number is invalid"@)
            }
        } else if l.len() == 0 {
            if parses_as_quality(r) {
                Ok((0, u8_val(r) as u8))
            } else {
                Err("Last number is invalid"@)
            }
        } else if !parses_as_quality(l) {
            Err("First number is invalid"@)
        } else if !parses_as_quality(r) {
            Err("Last number is invalid"@)
        } else if u8_val(r) < u8_val(l) {
            Err("Quality value(s) must be numbers in range 0-100."@)
        } else {
            Ok((u8_val(l) as u8, u8_val(r) as u8))
        }
    }
}

/// Parse one side of a quality option: a number no higher than 100.
fn parse_quality_side(s: &str) -> (r: Option<u8>)
    ensures
        parses_as_quality(s@) ==> 0 <= u8_val(s@) <= 100 && r == Some(u8_val(s@) as u8),
        !parses_as_quality(s@) ==> r is None,
{
    match parse_u8(s) {
        Some(v) => {
            if v <= 100 {
                Some(v)
            } else {
                None
            }
        },
        None => None,
    }
}

/// A number token holds only `+` and digits, never a `-`.
proof fn lemma_u8_token_no_dash(s: Seq<char>)
    requires
        parses_as_u8(s),
    ensures
        forall|i: int| 0 <= i < s.len() ==> #[trigger] s[i] != '-',
{
    let d = crate::numbers::numeric_part(s);
    assert forall|i: int| 0 <= i < s.len() implies #[trigger] s[i] != '-' by {
        if s.len() > 0 && s[0] == '+' {
            if i > 0 {
                assert(d[i - 1] == s[i]);
                assert(crate::numbers::is_digit(s[i]));
            }
        } else {
            assert(d[i] == s[i]);
            assert(crate::numbers::is_digit(s[i]));
        }
    }
}

/// The four accepted shapes of a quality option, for any number tokens
/// `l` and `r` with values at most 100 and floor not above ceiling:
/// `l-r` gives (l, r); `l` alone gives (90% of l, l); `-r` gives (0, r);
/// `l-` gives (l, 100).
pub proof fn lemma_quality_forms(l: Seq<char>, r: Seq<char>)
    requires
        parses_as_u8(l),
        parses_as_u8(r),
        u8_val(l) <= u8_val(r) <= 100,
    ensures
        spec_parse_quality(l + seq!['-'] + r) == Ok::<(u8, u8), Seq<char>>(
            (u8_val(l) as u8, u8_val(r) as u8),
        ),
        spec_parse_quality(l) == Ok::<(u8, u8), Seq<char>>(
            ((u8_val(l) * 9 / 10) as u8, u8_val(l) as u8),
        ),
        spec_parse_quality(seq!['-'] + r) == Ok::<(u8, u8), Seq<char>>((0u8, u8_val(r) as u8)),
        spec_parse_quality(l + seq!['-']) == Ok::<(u8, u8), Seq<char>>((u8_val(l) as u8, 100u8)),
{
    lemma_u8_token_no_dash(l);
    lemma_u8_token_no_dash(r);
    assert(l.len() > 0 && r.len() > 0);
    // The combined form l-r.
    let s1 = l + seq!['-'] + r;
    assert(s1[l.len() as int] == '-');
    assert forall|i: int| 0 <= i < l.len() implies #[trigger] s1[i] != '-' by {
        assert(s1[i] == l[i]);
    }
    lemma_first_dash_is(s1, l.len() as int);
    assert(s1.subrange(0, l.len() as int) =~= l);
    assert(s1.subrange(l.len() as int + 1, s1.len() as int) =~= r);
    // The plain form l.
    lemma_first_dash_is(l, l.len() as int);
    // The ceiling-only form -r.
    let s3 = seq!['-'] + r;
    assert(s3[0] == '-');
    lemma_first_dash_is(s3, 0);
    assert(s3.subrange(0, 0) =~= Seq::<char>::empty());
    assert(s3.subrange(1, s3.len() as int) =~= r);
    // The floor-only form l-.
    let s4 = l + seq!['-'];
    assert(s4[l.len() as int] == '-');
    assert forall|i: int| 0 <= i < l.len() implies #[trigger] s4[i] != '-' by {
        assert(s4[i] == l[i]);
    }
    lemma_first_dash_is(s4, l.len() as int);
    assert(s4.subrange(0, l.len() as int) =~= l);
    assert(s4.subrange(l.len() as int + 1, s4.len() as int) =~= Seq::<char>::empty());
}

/// Position of the first `-` of `s`, or its length if there is none.
fn find_dash(s: &str) -> (r: usize)
    ensures
        r == first_dash(s@),
{
    let n = s.unicode_len();
    let mut i: usize = 0;
    while i < n
        invariant
            0 <= i <= n,
            n == s@.len(),
            forall|j: int| 0 <= j < i ==> #[trigger] s@[j] != '-',
        decreases n - i,
    {
        if s.get_char(i) == '-' {
            proof {
                lemma_first_dash_is(s@, i as int);
            }
            return i;
        }
        i = i + 1;
    }
    proof {
        lemma_first_dash_is(s@, n as int);
    }
    n
}

/// Parse a quality option. On success the pair is (floor, ceiling) as
/// `spec_parse_quality` defines it; on failure the message names the side
/// that did not parse as a number in 0..=100, or reports an inverted
/// range.
pub fn parse_quality(quality: &str) -> (r: Result<(u8, u8), String>)
    ensures
        match r {
            Ok(v) => spec_parse_quality(quality@) == Ok::<(u8, u8), Seq<char>>(v),
            Err(m) => spec_parse_quality(quality@) matches Err(em) && em == m@,
        },
{
    let n = quality.unicode_len();
    let p = find_dash(quality);
    proof {
        lemma_first_dash(quality@);
    }
    if p == n {
        match parse_quality_side(quality) {
            Some(target) => {
                let floor: u8 = (target as u16 * 9 / 10) as u8;
                Ok((floor, target))
            },
            None => Err(String::from_str("Quality value is not a number")),
        }
    } else {
        let left = quality.substring_char(0, p);
        let right = quality.substring_char(p + 1, n);
        if p + 1 == n {
            match parse_quality_side(left) {
                Some(v) => Ok((v, 100)),
                None => Err(String::from_str("First number is invalid")),
            }
        } else if p == 0 {
            match parse_quality_side(right) {
                Some(v) => Ok((0, v)),
                None => Err(String::from_str("Last number is invalid")),
            }
        } else {
            match parse_quality_side(left) {
                None => Err(String::from_str("First number is invalid")),
                Some(lo) => match parse_quality_side(right) {
                    None => Err(String::from_str("Last number is invalid")),
                    Some(hi) => {
                        if hi < lo {
                            Err(
                                String::from_str(
                                    "Quality value(s) must be numbers in range 0-100.",
                                ),
                            )
                        } else {
                            Ok((lo, hi))
                        }
                    },
                },
            }
        }
    }
}

} // verus!
