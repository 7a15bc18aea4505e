//! Verified parsing of decimal integers from text, matching the standard
//! library's accepted shapes: an optional sign, then one or more digits,
//! and the value must fit the target width.

use vstd::prelude::*;

verus! {

/// Whether `c` is a decimal digit.
pub open spec fn is_digit(c: char) -> bool {
    48 <= c as int <= 57
}

/// The value of a decimal digit.
pub open spec fn digit_val(c: char) -> int {
    c as int - 48
}

/// Whether `s` is one or more decimal digits.
pub open spec fn all_digits(s: Seq<char>) -> bool {
    s.len() > 0 && forall|i: int| 0 <= i < s.len() ==> is_digit(#[trigger] s[i])
}

/// The numeric value of a digit sequence, most significant first.
pub open spec fn dec_val(s: Seq<char>) -> int
    decreases s.len(),
{
    if s.len() == 0 {
        0
    } else {
        dec_val(s.drop_last()) * 10 + digit_val(s.last())
    }
}

/// The digits of an unsigned decimal string: an optional leading `+` is
/// accepted and stripped.
pub open spec fn unsigned_digits(s: Seq<char>) -> Seq<char> {
    if s.len() > 0 && s[0] == '+' {
        s.skip(1)
    } else {
        s
    }
}

/// Whether `s` is an unsigned decimal string whose value is at most `max`.
pub open spec fn unsigned_ok(s: Seq<char>, max: int) -> bool {
    all_digits(unsigned_digits(s)) && dec_val(unsigned_digits(s)) <= max
}

/// The value of an unsigned decimal string.
pub open spec fn unsigned_val(s: Seq<char>) -> int {
    dec_val(unsigned_digits(s))
}

/// The digits of a signed decimal string: one leading `+` or `-` is
/// accepted and stripped.
pub open spec fn signed_digits(s: Seq<char>) -> Seq<char> {
    if s.len() > 0 && (s[0] == '+' || s[0] == '-') {
        s.skip(1)
    } else {
        s
    }
}

/// Whether `s` carries a leading minus sign.
pub open spec fn signed_neg(s: Seq<char>) -> bool {
    s.len() > 0 && s[0] == '-'
}

/// The value of a signed decimal string.
pub open spec fn signed_val(s: Seq<char>) -> int {
    if signed_neg(s) {
        -dec_val(signed_digits(s))
    } else {
        dec_val(signed_digits(s))
    }
}

/// Whether `s` is a signed decimal string whose value fits `[min, max]`.
pub open spec fn signed_ok(s: Seq<char>, min: int, max: int) -> bool {
    all_digits(signed_digits(s)) && min <= signed_val(s) <= max
}

/// A digit sequence's value never shrinks when digits are appended.
proof fn lemma_dec_val_monotone(s: Seq<char>, i: int)
    requires
        0 <= i <= s.len(),
        forall|j: int| 0 <= j < s.len() ==> is_digit(#[trigger] s[j]),
    ensures
        dec_val(s.take(i)) <= dec_val(s),
        dec_val(s.take(i)) >= 0,
    decreases s.len() - i,
{
    if i == s.len() {
        assert(s.take(i) =~= s);
        lemma_dec_val_nonneg(s);
    } else {
        lemma_dec_val_monotone(s, i + 1);
        assert(s.take(i + 1).drop_last() =~= s.take(i));
        assert(dec_val(s.take(i + 1)) == dec_val(s.take(i)) * 10 + digit_val(s[i]));
        lemma_dec_val_nonneg(s.take(i));
    }
}

/// A digit sequence's value is not negative.
proof fn lemma_dec_val_nonneg(s: Seq<char>)
    requires
        forall|j: int| 0 <= j < s.len() ==> is_digit(#[trigger] s[j]),
    ensures
        dec_val(s) >= 0,
    decreases s.len(),
{
    if s.len() > 0 {
        lemma_dec_val_nonneg(s.drop_last());
    }
}

/// Reads the digit run of `s` starting at char offset `from` as a `u64`.
/// Returns `None` when the run is empty, holds a non-digit, or overflows.
fn parse_digits_u64(s: &str, from: usize) -> (r: Option<u64>)
    requires
        from <= s@.len(),
    ensures
        match r {
            Some(v) => {
                &&& all_digits(s@.skip(from as int))
                &&& v == dec_val(s@.skip(from as int))
            },
            None => !(all_digits(s@.skip(from as int)) && dec_val(s@.skip(from as int))
                <= u64::MAX),
        },
{
    let n = s.unicode_len();
    if from == n {
        proof {
            assert(s@.skip(from as int) =~= Seq::<char>::empty());
        }
        return None;
    }
    let ghost digits = s@.skip(from as int);
    let mut acc: u64 = 0;
    let mut i = from;
    while i < n
        invariant
            from <= i <= n,
            n == s@.len(),
            digits == s@.skip(from as int),
            forall|j: int| 0 <= j < i - from ==> is_digit(#[trigger] digits[j]),
            acc == dec_val(digits.take(i - from)),
        decreases n - i,
    {
        let c = s.get_char(i);
        let cv = c as u32;
        if cv < 48 || cv > 57 {
            proof {
                assert(digits[i - from] == s@[i as int]);
                assert(!is_digit(digits[i - from]));
            }
            return None;
        }
        let d = (cv - 48) as u64;
        let next = match acc.checked_mul(10) {
            Some(m) => m.checked_add(d),
            None => None,
        };
        match next {
            Some(v) => {
                proof {
                    assert(digits.take(i - from + 1).drop_last() =~= digits.take(i - from));
                    assert(digits.take(i - from + 1).last() == s@[i as int]);
                }
                acc = v;
            },
            None => {
                proof {
                    assert(digits.take(i - from + 1).drop_last() =~= digits.take(i - from));
                    assert(digits.take(i - from + 1).last() == s@[i as int]);
                    assert(dec_val(digits.take(i - from + 1)) > u64::MAX);
                    if all_digits(digits) {
                        lemma_dec_val_monotone(digits, i - from + 1);
                    }
                }
                return None;
            },
        }
        i = i + 1;
    }
    proof {
        assert(digits.take(n - from) =~= digits);
    }
    Some(acc)
}

/// Parses an unsigned decimal string (an optional leading `+`, then
/// digits) as a `u64`, as the standard numeric parser accepts it.
pub fn parse_u64(s: &str) -> (r: Option<u64>)
    ensures
        match r {
            Some(v) => unsigned_ok(s@, u64::MAX as int) && v == unsigned_val(s@),
            None => !unsigned_ok(s@, u64::MAX as int),
        },
{
    let n = s.unicode_len();
    if n > 0 && s.get_char(0) == '+' {
        parse_digits_u64(s, 1)
    } else {
        proof {
            assert(s@.skip(0) =~= s@);
        }
        parse_digits_u64(s, 0)
    }
}

/// Parses an unsigned decimal string as a `u8`.
pub fn parse_u8(s: &str) -> (r: Option<u8>)
    ensures
        match r {
            Some(v) => unsigned_ok(s@, u8::MAX as int) && v == unsigned_val(s@),
            None => !unsigned_ok(s@, u8::MAX as int),
        },
{
    match parse_u64(s) {
        Some(v) => if v <= u8::MAX as u64 {
            Some(v as u8)
        } else {
            None
        },
        None => None,
    }
}

/// Parses an unsigned decimal string as a `u32`.
pub fn parse_u32(s: &str) -> (r: Option<u32>)
    ensures
        match r {
            Some(v) => unsigned_ok(s@, u32::MAX as int) && v == unsigned_val(s@),
            None => !unsigned_ok(s@, u32::MAX as int),
        },
{
    match parse_u64(s) {
        Some(v) => if v <= u32::MAX as u64 {
            Some(v as u32)
        } else {
            None
        },
        None => None,
    }
}

/// Parses an unsigned decimal string as a `usize`.
pub fn parse_usize(s: &str) -> (r: Option<usize>)
    ensures
        match r {
            Some(v) => unsigned_ok(s@, usize::MAX as int) && v == unsigned_val(s@),
            None => !unsigned_ok(s@, usize::MAX as int),
        },
{
    match parse_u64(s) {
        Some(v) => if v <= usize::MAX as u64 {
            Some(v as usize)
        } else {
            None
        },
        None => None,
    }
}

/// Parses a signed decimal string (an optional leading `+` or `-`, then
/// digits) as an `i64`.
pub fn parse_i64(s: &str) -> (r: Option<i64>)
    ensures
        match r {
            Some(v) => signed_ok(s@, i64::MIN as int, i64::MAX as int) && v == signed_val(s@),
            None => !signed_ok(s@, i64::MIN as int, i64::MAX as int),
        },
{
    let n = s.unicode_len();
    let (neg, from) = if n > 0 && s.get_char(0) == '-' {
        (true, 1)
    } else if n > 0 && s.get_char(0) == '+' {
        (false, 1)
    } else {
        (false, 0)
    };
    proof {
        if from == 0 {
            assert(s@.skip(0) =~= s@);
        }
    }
    match parse_digits_u64(s, from) {
        Some(v) => {
            if neg {
                if v <= i64::MAX as u64 {
                    Some((-(v as i64)) as i64)
                } else if v == i64::MAX as u64 + 1 {
                    Some(i64::MIN)
                } else {
                    None
                }
            } else {
                if v <= i64::MAX as u64 {
                    Some(v as i64)
                } else {
                    None
                }
            }
        },
        None => {
            proof {
                if all_digits(signed_digits(s@)) {
                    lemma_dec_val_nonneg(signed_digits(s@));
                }
            }
            None
        },
    }
}

} // verus!
