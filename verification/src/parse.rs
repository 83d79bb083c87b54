//! The typed decoder: turns the text of an environment variable into a value
//! of a destination type, or signals "no value" so the caller keeps its
//! default.
//!
//! Unsigned numerals follow the grammar of Rust's `FromStr` for unsigned
//! integers: an optional leading `+`, then one or more ASCII decimal digits,
//! and the value must fit the destination type. Anything else is "no value".

use vstd::prelude::*;

verus! {

/// An ASCII decimal digit.
pub open spec fn is_digit_char(c: char) -> bool {
    48 <= c as u32 <= 57
}

/// The numeric value of one decimal digit.
pub open spec fn digit_val(c: char) -> nat
    recommends
        is_digit_char(c),
{
    (c as u32 - 48) as nat
}

/// A sequence made of decimal digits only.
pub open spec fn all_digits(s: Seq<char>) -> bool {
    forall|i: int| 0 <= i < s.len() ==> is_digit_char(#[trigger] s[i])
}

/// The value of a digit string, most significant digit first.
pub open spec fn digits_val(s: Seq<char>) -> nat
    decreases s.len(),
{
    if s.len() == 0 {
        0
    } else {
        digits_val(s.drop_last()) * 10 + digit_val(s.last())
    }
}

/// The digit part of a numeral: everything after an optional leading `+`.
pub open spec fn numeral_digits(s: Seq<char>) -> Seq<char> {
    if s.len() > 0 && s[0] == '+' {
        s.subrange(1, s.len() as int)
    } else {
        s
    }
}

/// A well-formed unsigned decimal numeral: an optional leading `+`, then at
/// least one digit and nothing else.
pub open spec fn is_numeral(s: Seq<char>) -> bool {
    numeral_digits(s).len() > 0 && all_digits(numeral_digits(s))
}

/// The value a well-formed numeral denotes.
pub open spec fn numeral_val(s: Seq<char>) -> nat
    recommends
        is_numeral(s),
{
    digits_val(numeral_digits(s))
}

/// What decoding a string as a `u64` yields.
pub open spec fn spec_parse_u64(s: Seq<char>) -> Option<u64> {
    if is_numeral(s) && numeral_val(s) <= u64::MAX {
        Some(numeral_val(s) as u64)
    } else {
        None
    }
}

/// What decoding a string as a `u32` yields.
pub open spec fn spec_parse_u32(s: Seq<char>) -> Option<u32> {
    if is_numeral(s) && numeral_val(s) <= u32::MAX {
        Some(numeral_val(s) as u32)
    } else {
        None
    }
}

/// What decoding a string as a `u16` yields.
pub open spec fn spec_parse_u16(s: Seq<char>) -> Option<u16> {
    if is_numeral(s) && numeral_val(s) <= u16::MAX {
        Some(numeral_val(s) as u16)
    } else {
        None
    }
}

/// What decoding a string as a `usize` yields.
pub open spec fn spec_parse_usize(s: Seq<char>) -> Option<usize> {
    if is_numeral(s) && numeral_val(s) <= usize::MAX {
        Some(numeral_val(s) as usize)
    } else {
        None
    }
}

/// Boolean decoding never fails on a present value: only the exact strings
/// `1` and `true` decode to true, everything else to false.
pub open spec fn spec_parse_bool(s: Seq<char>) -> bool {
    s == "1"@ || s == "true"@
}

proof fn lemma_digits_val_take_step(s: Seq<char>, i: int)
    requires
        0 <= i < s.len(),
    ensures
        digits_val(s.take(i + 1)) == digits_val(s.take(i)) * 10 + digit_val(s[i]),
{
    assert(s.take(i + 1).drop_last() =~= s.take(i));
    assert(s.take(i + 1).last() == s[i]);
}

/// Appending more digits can only grow the value.
proof fn lemma_digits_val_take_monotonic(s: Seq<char>, i: int)
    requires
        0 <= i <= s.len(),
    ensures
        digits_val(s.take(i)) <= digits_val(s),
    decreases s.len() - i,
{
    if i == s.len() {
        assert(s.take(i) =~= s);
    } else {
        lemma_digits_val_take_step(s, i);
        lemma_digits_val_take_monotonic(s, i + 1);
    }
}

/// Decodes an unsigned decimal numeral as `u64::from_str` would: an optional
/// leading `+`, then one or more digits, within range.
pub fn parse_u64(s: &str) -> (r: Option<u64>)
    ensures
        r == spec_parse_u64(s@),
{
    let len = s.unicode_len();
    if len == 0 {
        return None;
    }
    let start: usize = if s.get_char(0) == '+' {
        1
    } else {
        0
    };
    if start == len {
        return None;
    }
    let ghost d = numeral_digits(s@);
    proof {
        assert(d =~= s@.subrange(start as int, len as int));
    }
    let mut i: usize = start;
    let mut acc: u64 = 0;
    while i < len
        invariant
            start <= i <= len,
            start < len,
            len == s@.len(),
            d == numeral_digits(s@),
            d =~= s@.subrange(start as int, len as int),
            all_digits(d.take(i - start)),
            acc == digits_val(d.take(i - start)),
        decreases len - i,
    {
        let c = s.get_char(i);
        let cu = c as u32;
        if cu < 48 || cu > 57 {
            proof {
                assert(d[i - start] == s@[i as int]);
                assert(!is_digit_char(d[i - start]));
            }
            return None;
        }
        let dv: u64 = (cu - 48) as u64;
        proof {
            assert(d[i - start] == s@[i as int]);
            lemma_digits_val_take_step(d, i - start);
        }
        if acc > u64::MAX / 10 || (acc == u64::MAX / 10 && dv > u64::MAX % 10) {
            proof {
                assert(digits_val(d.take(i + 1 - start)) > u64::MAX);
                lemma_digits_val_take_monotonic(d, i + 1 - start);
            }
            return None;
        }
        acc = acc * 10 + dv;
        i = i + 1;
    }
    proof {
        assert(d.take(len - start) =~= d);
    }
    Some(acc)
}

/// Decodes an unsigned decimal numeral into a `u32`.
pub fn parse_u32(s: &str) -> (r: Option<u32>)
    ensures
        r == spec_parse_u32(s@),
{
    match parse_u64(s) {
        Some(v) => if v <= u32::MAX as u64 {
            Some(v as u32)
        } else {
            None
        },
        None => None,
    }
}

/// Decodes an unsigned decimal numeral into a `u16`.
pub fn parse_u16(s: &str) -> (r: Option<u16>)
    ensures
        r == spec_parse_u16(s@),
{
    match parse_u64(s) {
        Some(v) => if v <= u16::MAX as u64 {
            Some(v as u16)
        } else {
            None
        },
        None => None,
    }
}

/// Decodes an unsigned decimal numeral into a `usize`.
pub fn parse_usize(s: &str) -> (r: Option<usize>)
    ensures
        r == spec_parse_usize(s@),
{
    match parse_u64(s) {
        Some(v) => if v <= usize::MAX as u64 {
            Some(v as usize)
        } else {
            None
        },
        None => None,
    }
}

/// Character-for-character string equality.
pub fn str_eq(a: &str, b: &str) -> (r: bool)
    ensures
        r == (a@ == b@),
{
    let a_len = a.unicode_len();
    let b_len = b.unicode_len();
    if a_len != b_len {
        return false;
    }
    let mut i: usize = 0;
    while i < a_len
        invariant
            0 <= i <= a_len,
            a_len == a@.len(),
            b_len == b@.len(),
            a_len == b_len,
            forall|j: int| 0 <= j < i ==> a@[j] == b@[j],
        decreases a_len - i,
    {
        if a.get_char(i) != b.get_char(i) {
            return false;
        }
        i = i + 1;
    }
    proof {
        assert(a@ =~= b@);
    }
    true
}

/// Decodes a boolean: exactly `1` and `true` mean true, any other present
/// value means false.
pub fn parse_bool(s: &str) -> (r: bool)
    ensures
        r == spec_parse_bool(s@),
{
    str_eq(s, "1") || str_eq(s, "true")
}

} // verus!
