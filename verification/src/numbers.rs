//! Decimal parsing of small unsigned numbers, with a mathematical definition
//! of the accepted strings and their values.

use vstd::prelude::*;

verus! {

/// Is `c` an ASCII decimal digit?
pub open spec fn is_digit(c: char) -> bool {
    48 <= c as u32 <= 57
}

/// Value of a single digit.
pub open spec fn digit_val(c: char) -> int {
    c as u32 - 48
}

/// Are all characters of `s` decimal digits?
pub open spec fn all_digits(s: Seq<char>) -> bool {
    forall|i: int| 0 <= i < s.len() ==> is_digit(#[trigger] s[i])
}

/// Numeric value of a digit string, most significant digit first.
pub open spec fn digits_val(s: Seq<char>) -> int
    decreases s.len(),
{
    if s.len() == 0 {
        0
    } else {
        digits_val(s.drop_last()) * 10 + digit_val(s.last())
    }
}

/// The digits of a number token: everything after an optional leading `+`.
pub open spec fn numeric_part(s: Seq<char>) -> Seq<char> {
    if s.len() > 0 && s[0] == '+' {
        s.subrange(1, s.len() as int)
    } else {
        s
    }
}

/// Does `s` parse as a `u8`: an optional leading `+`, then one or more
/// decimal digits, with a value of at most 255?
pub open spec fn parses_as_u8(s: Seq<char>) -> bool {
    &&& numeric_part(s).len() > 0
    &&& all_digits(numeric_part(s))
    &&& digits_val(numeric_part(s)) <= 255
}

/// Value of a `u8` token; meaningful when `parses_as_u8(s)` holds.
pub open spec fn u8_val(s: Seq<char>) -> int {
    digits_val(numeric_part(s))
}

/// A digit string's value is never negative.
pub proof fn lemma_digits_val_nonneg(s: Seq<char>)
    requires
        all_digits(s),
    ensures
        digits_val(s) >= 0,
    decreases s.len(),
{
    if s.len() > 0 {
        assert(all_digits(s.drop_last())) by {
            assert(forall|i: int|
                0 <= i < s.drop_last().len() ==> is_digit(#[trigger] s.drop_last()[i]));
        }
        lemma_digits_val_nonneg(s.drop_last());
    }
}

/// Extending a digit string on the right cannot decrease its value.
pub proof fn lemma_digits_val_prefix(s: Seq<char>, k: int)
    requires
        all_digits(s),
        0 <= k <= s.len(),
    ensures
        digits_val(s.subrange(0, k)) <= digits_val(s),
    decreases s.len() - k,
{
    if k < s.len() {
        let t = s.subrange(0, k + 1);
        assert(t.drop_last() =~= s.subrange(0, k));
        assert(all_digits(t.drop_last()));
        lemma_digits_val_nonneg(t.drop_last());
        assert(digits_val(t) == digits_val(s.subrange(0, k)) * 10 + digit_val(s[k]));
        assert(digits_val(s.subrange(0, k)) <= digits_val(t));
        lemma_digits_val_prefix(s, k + 1);
    } else {
        assert(s.subrange(0, k) =~= s);
    }
}

/// The character of one decimal digit.
pub open spec fn spec_digit_char(d: int) -> char {
    if d == 0 {
        '0'
    } else if d == 1 {
        '1'
    } else if d == 2 {
        '2'
    } else if d == 3 {
        '3'
    } else if d == 4 {
        '4'
    } else if d == 5 {
        '5'
    } else if d == 6 {
        '6'
    } else if d == 7 {
        '7'
    } else if d == 8 {
        '8'
    } else {
        '9'
    }
}

/// The decimal rendering of a number, most significant digit first.
pub open spec fn spec_decimal(n: int) -> Seq<char>
    decreases n,
{
    if n < 10 {
        seq![spec_digit_char(n)]
    } else {
        spec_decimal(n / 10) + seq![spec_digit_char(n % 10)]
    }
}

/// The text of one decimal digit.
fn digit_str(d: u64) -> (r: &'static str)
    requires
        d <= 9,
    ensures
        r@ == seq![spec_digit_char(d as int)],
{
    proof {
        reveal_strlit("0");
        reveal_strlit("1");
        reveal_strlit("2");
        reveal_strlit("3");
        reveal_strlit("4");
        reveal_strlit("5");
        reveal_strlit("6");
        reveal_strlit("7");
        reveal_strlit("8");
        reveal_strlit("9");
    }
    let r = match d {
        0 => "0",
        1 => "1",
        2 => "2",
        3 => "3",
        4 => "4",
        5 => "5",
        6 => "6",
        7 => "7",
        8 => "8",
        _ => "9",
    };
    proof {
        assert(r@ =~= seq![spec_digit_char(d as int)]);
    }
    r
}

/// Render a number in decimal.
pub fn format_u64(n: u64) -> (r: String)
    ensures
        r@ == spec_decimal(n as int),
    decreases n,
{
    let d = digit_str(n % 10);
    if n < 10 {
        String::from_str(d)
    } else {
        format_u64(n / 10).concat(d)
    }
}

/// Parse `s` as a `u8`: an optional leading `+`, then decimal digits.
/// Returns `None` exactly on the strings that do not parse.
pub fn parse_u8(s: &str) -> (r: Option<u8>)
    ensures
        parses_as_u8(s@) ==> 0 <= u8_val(s@) <= 255 && r == Some(u8_val(s@) as u8),
        !parses_as_u8(s@) ==> r is None,
{
    let n = s.unicode_len();
    let start: usize = if n > 0 && s.get_char(0) == '+' {
        1
    } else {
        0
    };
    let ghost digits = numeric_part(s@);
    proof {
        assert(digits =~= s@.subrange(start as int, s@.len() as int));
    }
    if n == start {
        return None;
    }
    let mut acc: u16 = 0;
    let mut i: usize = start;
    while i < n
        invariant
            start <= i <= n,
            n == s@.len(),
            digits == numeric_part(s@),
            digits =~= s@.subrange(start as int, s@.len() as int),
            all_digits(s@.subrange(start as int, i as int)),
            acc == digits_val(s@.subrange(start as int, i as int)),
            acc <= 255,
        decreases n - i,
    {
        let c = s.get_char(i);
        let v = c as u32;
        if v < 48 || v > 57 {
            proof {
                assert(!is_digit(s@[i as int]));
                assert(digits[i - start] == s@[i as int]);
                assert(!all_digits(digits));
            }
            return None;
        }
        let d: u16 = (v - 48) as u16;
        let next: u16 = acc * 10 + d;
        proof {
            let pre = s@.subrange(start as int, i as int);
            let cur = s@.subrange(start as int, i + 1 as int);
            assert(cur.drop_last() =~= pre);
            assert(cur.last() == s@[i as int]);
        }
        if next > 255 {
            proof {
                let cur = s@.subrange(start as int, i + 1 as int);
                assert(cur =~= digits.subrange(0, i + 1 - start));
                if all_digits(digits) {
                    lemma_digits_val_prefix(digits, i + 1 - start);
                    assert(digits_val(digits) > 255);
                }
            }
            return None;
        }
        acc = next;
        i = i + 1;
    }
    proof {
        assert(s@.subrange(start as int, i as int) =~= digits);
    }
    Some(acc as u8)
}

} // verus!
