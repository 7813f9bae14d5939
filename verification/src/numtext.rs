//! Decimal parsing of text-encoded pollutant readings.
//!
//! Upstream transmits every numeric field as a string. A reading contributes
//! to an aggregate only if it is a well-formed non-negative decimal integer
//! that fits in `u32`: an optional leading `+`, then one or more ASCII
//! digits, whose value is at most `u32::MAX`. Anything else is rejected.

use vstd::prelude::*;
use vstd::string::StrSliceExecFns;

verus! {

/// An ASCII decimal digit.
pub open spec fn is_dec_digit(c: char) -> bool {
    48 <= c as u32 && c as u32 <= 57
}

/// Numeric value of one ASCII decimal digit.
pub open spec fn digit_value(c: char) -> int {
    c as u32 - 48
}

/// Every character of `s` is an ASCII decimal digit.
pub open spec fn all_dec_digits(s: Seq<char>) -> bool {
    forall|i: int| 0 <= i < s.len() ==> is_dec_digit(#[trigger] s[i])
}

/// Value of a digit string read in base ten, most significant digit first.
pub open spec fn digits_value(s: Seq<char>) -> int
    decreases s.len(),
{
    if s.len() == 0 {
        0
    } else {
        digits_value(s.drop_last()) * 10 + digit_value(s.last())
    }
}

/// The digit part of a numeral: everything after an optional leading `+`.
pub open spec fn digit_part(s: Seq<char>) -> Seq<char> {
    if s.len() >= 1 && s[0] == '+' {
        s.subrange(1, s.len() as int)
    } else {
        s
    }
}

/// `s` is a well-formed `u32` numeral: an optional leading `+`, then at
/// least one ASCII digit, with a value no greater than `u32::MAX`.
pub open spec fn parses_as_u32(s: Seq<char>) -> bool {
    let d = digit_part(s);
    d.len() >= 1 && all_dec_digits(d) && digits_value(d) <= u32::MAX
}

/// The value of a numeral (meaningful when `parses_as_u32(s)` holds).
pub open spec fn numeral_value(s: Seq<char>) -> int {
    digits_value(digit_part(s))
}

/// A digit string's value is non-negative.
pub proof fn lemma_digits_value_nonneg(s: Seq<char>)
    requires
        all_dec_digits(s),
    ensures
        digits_value(s) >= 0,
    decreases s.len(),
{
    if s.len() > 0 {
        assert(all_dec_digits(s.drop_last()));
        lemma_digits_value_nonneg(s.drop_last());
    }
}

/// Reading one more digit steps the value: the value of the first `i + 1`
/// digits is ten times the value of the first `i`, plus the new digit.
pub proof fn lemma_digits_value_step(s: Seq<char>, i: int)
    requires
        0 <= i < s.len(),
    ensures
        digits_value(s.take(i + 1)) == digits_value(s.take(i)) * 10 + digit_value(s[i]),
{
    assert(s.take(i + 1).drop_last() =~= s.take(i));
    assert(s.take(i + 1).last() == s[i]);
}

/// A prefix of a digit string never exceeds the whole string's value.
pub proof fn lemma_digits_value_prefix_le(s: Seq<char>, i: int)
    requires
        all_dec_digits(s),
        0 <= i <= s.len(),
    ensures
        digits_value(s.take(i)) <= digits_value(s),
    decreases s.len() - i,
{
    if i < s.len() {
        lemma_digits_value_step(s, i);
        assert(all_dec_digits(s.take(i)));
        lemma_digits_value_nonneg(s.take(i));
        let x = digits_value(s.take(i));
        assert(x * 10 >= x) by (nonlinear_arith)
            requires
                x >= 0,
        ;
        assert(is_dec_digit(s[i]));
        lemma_digits_value_prefix_le(s, i + 1);
    } else {
        assert(s.take(i) =~= s);
    }
}

/// Parse a text field as a non-negative 32-bit decimal integer.
///
/// Returns `Some` exactly on the numerals `parses_as_u32` admits, and then
/// returns their value; every other string yields `None`.
pub fn parse_u32(s: &str) -> (r: Option<u32>)
    ensures
        r is Some <==> parses_as_u32(s@),
        r matches Some(v) ==> v == numeral_value(s@),
{
    let n = s.unicode_len();
    let start: usize = if n >= 1 && s.get_char(0) == '+' {
        1
    } else {
        0
    };
    let ghost d = digit_part(s@);
    proof {
        assert(d =~= s@.subrange(start as int, n as int));
    }
    if start >= n {
        // no digits at all
        return None;
    }
    let mut val: u64 = 0;
    let mut i: usize = start;
    while i < n
        invariant
            start <= i <= n,
            n == s@.len(),
            d == digit_part(s@),
            d == s@.subrange(start as int, n as int),
            d.len() == n - start,
            all_dec_digits(d.take(i - start)),
            val == digits_value(d.take(i - start)),
            val <= u32::MAX,
        decreases n - i,
    {
        let c = s.get_char(i);
        let cv = c as u32;
        proof {
            assert(d[i - start] == s@[i as int]);
        }
        if cv < 48 || cv > 57 {
            // a non-digit character: the numeral is malformed
            assert(!is_dec_digit(d[i - start]));
            return None;
        }
        let next: u64 = val * 10 + ((cv - 48) as u64);
        proof {
            lemma_digits_value_step(d, i - start);
        }
        if next > 0xFFFF_FFFF {
            // the value no longer fits in u32, and further digits only grow it
            proof {
                assert(all_dec_digits(d.take(i - start + 1)));
                if all_dec_digits(d) {
                    lemma_digits_value_prefix_le(d, i - start + 1);
                }
            }
            return None;
        }
        val = next;
        i = i + 1;
    }
    proof {
        assert(d.take(i - start) =~= d);
    }
    Some(val as u32)
}

} // verus!
