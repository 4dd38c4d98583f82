//! Parsing a textual integer literal into a discriminant value of a chosen
//! width: the digits' value if the literal is well formed and within the
//! width's range, else the matching validation error kind.
use vstd::arithmetic::div_mod::lemma_fundamental_div_mod;
use vstd::prelude::*;

use crate::variant::ErrorKind;
use crate::width::{literal_max, PrimitiveRepresentation};

verus! {

/// Whether the character is a decimal digit.
pub open spec fn is_digit(c: char) -> bool {
    '0' as u32 <= c as u32 && c as u32 <= '9' as u32
}

/// The value of one decimal digit.
pub open spec fn digit_val(c: char) -> nat
    recommends
        is_digit(c),
{
    (c as u32 - '0' as u32) as nat
}

/// Whether the text is a well-formed integer literal: nonempty, decimal
/// digits only.
pub open spec fn is_int_literal(s: Seq<char>) -> bool {
    s.len() > 0 && (forall|i: int| 0 <= i < s.len() ==> is_digit(s[i]))
}

/// The value the digits denote, most significant first.
pub open spec fn digits_val(s: Seq<char>) -> nat
    decreases s.len(),
{
    if s.len() == 0 {
        0
    } else {
        digits_val(s.drop_last()) * 10 + digit_val(s.last())
    }
}

/// A digit sequence's value never shrinks as digits are appended.
proof fn lemma_digits_val_monotonic(s: Seq<char>, i: int, j: int)
    requires
        0 <= i <= j <= s.len(),
    ensures
        digits_val(s.subrange(0, i)) <= digits_val(s.subrange(0, j)),
    decreases j - i,
{
    if i < j {
        lemma_digits_val_monotonic(s, i, j - 1);
        assert(s.subrange(0, j).drop_last() =~= s.subrange(0, j - 1));
    }
}

/// Parses a decimal integer literal against the chosen width.
///
/// Returns the literal's value when the text is a nonempty string of
/// decimal digits denoting a value the width can represent; reports
/// [`ErrorKind::NotIntegerLiteral`] for malformed text and
/// [`ErrorKind::OutOfRange`] for a well-formed literal too large for the
/// width.
pub fn parse_literal(s: &str, width: PrimitiveRepresentation) -> (r: Result<u128, ErrorKind>)
    ensures
        is_int_literal(s@) && digits_val(s@) <= literal_max(width) ==> r == Ok::<u128, ErrorKind>(
            digits_val(s@) as u128,
        ),
        !is_int_literal(s@) ==> r == Err::<u128, ErrorKind>(ErrorKind::NotIntegerLiteral),
        is_int_literal(s@) && digits_val(s@) > literal_max(width) ==> r == Err::<u128, ErrorKind>(
            ErrorKind::OutOfRange,
        ),
{
    let limit = width.literal_limit();
    let n = s.unicode_len();
    if n == 0 {
        return Err(ErrorKind::NotIntegerLiteral);
    }
    let mut i: usize = 0;
    let mut acc: u128 = 0;
    let mut over = false;
    while i < n
        invariant
            0 <= i <= n,
            n == s@.len(),
            limit == literal_max(width),
            forall|j: int| 0 <= j < i ==> is_digit(s@[j]),
            !over ==> acc == digits_val(s@.subrange(0, i as int)) && acc <= limit,
            over ==> digits_val(s@.subrange(0, i as int)) > limit,
        decreases n - i,
    {
        let c = s.get_char(i);
        let u = c as u32;
        if u < 48 || u > 57 {
            assert(!is_digit(s@[i as int]));
            return Err(ErrorKind::NotIntegerLiteral);
        }
        let d = (u - 48) as u128;
        proof {
            assert(s@.subrange(0, i as int + 1).drop_last() =~= s@.subrange(0, i as int));
            assert(s@.subrange(0, i as int + 1).last() == s@[i as int]);
        }
        if over {
            proof {
                lemma_digits_val_monotonic(s@, i as int, i as int + 1);
            }
        } else {
            proof {
                lemma_fundamental_div_mod(limit as int, 10);
            }
            if acc > limit / 10 || (acc == limit / 10 && d > limit % 10) {
                over = true;
            } else {
                acc = acc * 10 + d;
            }
        }
        i = i + 1;
    }
    proof {
        assert(s@.subrange(0, n as int) =~= s@);
    }
    if over {
        Err(ErrorKind::OutOfRange)
    } else {
        Ok(acc)
    }
}

} // verus!
