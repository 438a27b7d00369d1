//! Application codes: the status values that a taxonomy's variants map to.
//!
//! A taxonomy declares each application code as text. The type that the text
//! is read into is the taxonomy author's choice; all that is asked of it is
//! that it can be read from a string, with the same string always giving the
//! same outcome.

use vstd::prelude::*;
use vstd::string::StrSliceExecFns;

verus! {

/// A type that application codes can be read into.
pub trait AppCode: Sized {
    /// What a text reads as: the code it stands for, or `None` where it
    /// stands for none.
    spec fn parse_spec(text: Seq<char>) -> Option<Self>;

    /// Reads a code from its text.
    fn parse(text: &str) -> (parsed: Option<Self>)
        ensures
            parsed == Self::parse_spec(text@),
    ;
}

/// Whether `c` is one of the ten ASCII digits.
pub open spec fn is_digit(c: char) -> bool {
    '0' <= c <= '9'
}

/// The value of an ASCII digit.
pub open spec fn digit_value(c: char) -> nat {
    (c as nat - '0' as nat) as nat
}

/// Whether `s` is made of ASCII digits alone.
pub open spec fn all_digits(s: Seq<char>) -> bool {
    forall|i: int| 0 <= i < s.len() ==> is_digit(#[trigger] s[i])
}

/// The number that a string of digits writes in base ten.
pub open spec fn decimal_value(digits: Seq<char>) -> nat
    decreases digits.len(),
{
    if digits.len() == 0 {
        0
    } else {
        10 * decimal_value(digits.drop_last()) + digit_value(digits.last())
    }
}

/// The text without a leading plus sign.
pub open spec fn unsigned_part(text: Seq<char>) -> Seq<char> {
    if text.len() > 0 && text[0] == '+' {
        text.skip(1)
    } else {
        text
    }
}

/// A `u16` is written as an optional plus sign followed by at least one
/// digit and nothing else, and the number written must fit into sixteen bits.
pub open spec fn parse_u16_spec(text: Seq<char>) -> Option<u16> {
    let digits = unsigned_part(text);
    if digits.len() > 0 && all_digits(digits) && decimal_value(digits) <= u16::MAX {
        Some(decimal_value(digits) as u16)
    } else {
        None
    }
}

/// A string of digits writes a number no smaller than any of its prefixes
/// does.
pub proof fn lemma_decimal_value_prefix(digits: Seq<char>, k: int)
    requires
        0 <= k <= digits.len(),
    ensures
        decimal_value(digits.take(k)) <= decimal_value(digits),
    decreases digits.len(),
{
    if k == digits.len() {
        assert(digits.take(k) =~= digits);
    } else {
        assert(digits.drop_last().take(k) =~= digits.take(k));
        lemma_decimal_value_prefix(digits.drop_last(), k);
    }
}

impl AppCode for u16 {
    open spec fn parse_spec(text: Seq<char>) -> Option<u16> {
        parse_u16_spec(text)
    }

    fn parse(text: &str) -> (parsed: Option<u16>) {
        let n = text.unicode_len();
        let start: usize = if n > 0 && text.get_char(0) == '+' {
            1
        } else {
            0
        };
        if start == n {
            return None;
        }
        let ghost digits = unsigned_part(text@);
        let mut value: u16 = 0;
        let mut i: usize = start;
        while i < n
            invariant
                start <= i <= n,
                n == text@.len(),
                digits == text@.skip(start as int),
                digits == unsigned_part(text@),
                all_digits(digits.take(i - start)),
                value == decimal_value(digits.take(i - start)),
            decreases n - i,
        {
            let c = text.get_char(i);
            assert(digits.take(i - start + 1).drop_last() =~= digits.take(i - start));
            if c < '0' || c > '9' {
                assert(!is_digit(digits[i - start]));
                return None;
            }
            let d: u16 = (c as u32 - '0' as u32) as u16;
            if value > 6553 || (value == 6553 && d > 5) {
                proof {
                    lemma_decimal_value_prefix(digits, i - start + 1);
                }
                return None;
            }
            value = value * 10 + d;
            i = i + 1;
        }
        assert(digits.take(i - start) =~= digits);
        Some(value)
    }
}

} // verus!
