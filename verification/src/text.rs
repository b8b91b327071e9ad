//! Conversion of text-encoded request fields. Numeric fields of an action
//! request arrive as text; they are converted once, at the boundary of the
//! pipeline, and a malformed field yields a typed decline instead of a fault.

use vstd::prelude::*;

verus! {

/// String equality over the character views.
pub fn str_eq(a: &str, b: &str) -> (r: bool)
    ensures
        r == (a@ == b@),
{
    let owned_a = a.to_owned();
    let owned_b = b.to_owned();
    owned_a == owned_b
}

/// Whether `c` is an ASCII decimal digit.
pub open spec fn is_decimal_digit(c: char) -> bool {
    '0' <= c && c <= '9'
}

/// Numeric value of a decimal digit.
pub open spec fn digit_value(c: char) -> int {
    c as int - '0' as int
}

/// Whether every character of `s` is a decimal digit.
pub open spec fn all_decimal_digits(s: Seq<char>) -> bool {
    forall|i: int| 0 <= i < s.len() ==> is_decimal_digit(#[trigger] s[i])
}

/// Value of a digit string read as a base-ten number.
pub open spec fn decimal_value(s: Seq<char>) -> int
    decreases s.len(),
{
    if s.len() == 0 {
        0
    } else {
        decimal_value(s.drop_last()) * 10 + digit_value(s.last())
    }
}

/// The accepted grammar of a numeric request field: one or more decimal
/// digits whose value fits in an `i32`. Anything else is malformed.
pub open spec fn spec_parse_decimal_i32(s: Seq<char>) -> Option<i32> {
    if s.len() > 0 && all_decimal_digits(s) && decimal_value(s) <= i32::MAX {
        Some(decimal_value(s) as i32)
    } else {
        None
    }
}

proof fn lemma_decimal_value_nonneg(s: Seq<char>)
    requires
        all_decimal_digits(s),
    ensures
        decimal_value(s) >= 0,
    decreases s.len(),
{
    if s.len() > 0 {
        assert(all_decimal_digits(s.drop_last()));
        lemma_decimal_value_nonneg(s.drop_last());
    }
}

proof fn lemma_decimal_prefix_le(s: Seq<char>, i: int)
    requires
        all_decimal_digits(s),
        0 <= i <= s.len(),
    ensures
        decimal_value(s.subrange(0, i)) <= decimal_value(s),
    decreases s.len() - i,
{
    if i < s.len() {
        let shorter = s.subrange(0, i);
        let longer = s.subrange(0, i + 1);
        assert(longer.drop_last() =~= shorter);
        assert(longer.last() == s[i]);
        assert(all_decimal_digits(shorter));
        lemma_decimal_value_nonneg(shorter);
        assert(decimal_value(longer) == decimal_value(shorter) * 10 + digit_value(s[i]));
        assert(decimal_value(shorter) * 10 >= decimal_value(shorter));
        lemma_decimal_prefix_le(s, i + 1);
    } else {
        assert(s.subrange(0, i) =~= s);
    }
}

/// Converts a text field to a number under the accepted grammar: one or more
/// decimal digits, value at most `i32::MAX`. Returns `None` for an empty
/// field, a non-digit character, or a value out of range.
pub fn parse_decimal_i32(s: &str) -> (r: Option<i32>)
    ensures
        r == spec_parse_decimal_i32(s@),
        match r {
            Some(value) => value >= 0,
            None => true,
        },
{
    let n: usize = s.unicode_len();
    if n == 0 {
        return None;
    }
    let mut acc: i32 = 0;
    let mut i: usize = 0;
    while i < n
        invariant
            0 <= i <= n,
            n == s@.len(),
            all_decimal_digits(s@.subrange(0, i as int)),
            acc == decimal_value(s@.subrange(0, i as int)),
            0 <= acc,
        decreases n - i,
    {
        let c = s.get_char(i);
        if c < '0' || c > '9' {
            proof {
                assert(s@[i as int] == c);
                assert(!is_decimal_digit(c));
                assert(!all_decimal_digits(s@));
            }
            return None;
        }
        let digit: i32 = (c as u32 as i32) - 48;
        proof {
            assert('0' as int == 48);
            assert(digit == digit_value(c));
            assert(0 <= digit <= 9);
        }
        if acc > (i32::MAX - digit) / 10 {
            proof {
                let grown = s@.subrange(0, i as int + 1);
                assert(grown.drop_last() =~= s@.subrange(0, i as int));
                assert(grown.last() == c);
                assert(decimal_value(grown) == acc * 10 + digit);
                assert(acc * 10 + digit > i32::MAX) by {
                    assert(acc >= (i32::MAX - digit) / 10 + 1);
                    assert(((i32::MAX - digit) / 10 + 1) * 10 + digit > i32::MAX) by (nonlinear_arith)
                        requires 0 <= digit <= 9;
                };
                if all_decimal_digits(s@) {
                    lemma_decimal_prefix_le(s@, i as int + 1);
                    assert(decimal_value(s@) > i32::MAX);
                }
            }
            return None;
        }
        acc = acc * 10 + digit;
        i += 1;
        proof {
            let grown = s@.subrange(0, i as int);
            assert(grown.drop_last() =~= s@.subrange(0, i as int - 1));
            assert(grown.last() == c);
            lemma_decimal_value_nonneg(grown);
        }
    }
    proof {
        assert(s@.subrange(0, n as int) =~= s@);
    }
    Some(acc)
}

} // verus!
