//! The Luhn checksum over a digit string.
//!
//! Scanning from the rightmost digit, every second digit (the one
//! immediately left of the last, and so on) is doubled, with nine
//! subtracted when the doubled value exceeds nine; the string passes when
//! the sum of all contributions is divisible by ten.  Empty input or any
//! non-digit character is a checksum failure, never a fault.

use vstd::arithmetic::div_mod::lemma_add_mod_noop;
use vstd::prelude::*;

use crate::text::all_digits;
use crate::text::digit_value;
use crate::text::is_digit_char;

verus! {

/// The contribution of a doubled digit: nine is subtracted when doubling
/// carries past nine.
pub open spec fn doubled_digit(d: int) -> int {
    if 2 * d > 9 {
        2 * d - 9
    } else {
        2 * d
    }
}

/// The contribution of the digit at index `i`: digits at odd distance from
/// the right end (the rightmost digit having distance zero) are doubled.
pub open spec fn luhn_contribution(s: Seq<char>, i: int) -> int {
    if (s.len() - 1 - i) % 2 == 1 {
        doubled_digit(digit_value(s[i]))
    } else {
        digit_value(s[i])
    }
}

/// The sum of the contributions of the digits at indices `[i, s.len())`.
pub open spec fn luhn_sum_from(s: Seq<char>, i: int) -> int
    decreases s.len() - i,
{
    if i < 0 || i >= s.len() {
        0
    } else {
        luhn_contribution(s, i) + luhn_sum_from(s, i + 1)
    }
}

/// The Luhn sum of the whole string.
pub open spec fn luhn_sum(s: Seq<char>) -> int {
    luhn_sum_from(s, 0)
}

/// A string passes the Luhn check when it is non-empty, holds only decimal
/// digits, and its Luhn sum is divisible by ten.
pub open spec fn spec_luhn(s: Seq<char>) -> bool {
    s.len() > 0 && all_digits(s) && luhn_sum(s) % 10 == 0
}

/// Validates a card number with the Luhn checksum.  Empty input and input
/// with any non-digit character fail the check.
pub fn luhn(number: &str) -> (r: bool)
    ensures
        r == spec_luhn(number@),
        number@.len() == 0 ==> !r,
        !all_digits(number@) ==> !r,
{
    let n = number.unicode_len();
    if n == 0 {
        return false;
    }
    let mut total: u32 = 0;
    let mut i: usize = n;
    while i > 0
        invariant
            n == number@.len(),
            i <= n,
            forall|j: int| i <= j < n ==> is_digit_char(number@[j]),
            total < 10,
            total == luhn_sum_from(number@, i as int) % 10,
        decreases i,
    {
        let c = number.get_char(i - 1);
        let v = c as u32;
        if v < 48 || v > 57 {
            assert(!is_digit_char(number@[i - 1]));
            return false;
        }
        let d = v - 48;
        let weight: u32 = if (n - i) % 2 == 1 {
            let dd = 2 * d;
            if dd > 9 {
                dd - 9
            } else {
                dd
            }
        } else {
            d
        };
        proof {
            assert(luhn_contribution(number@, i - 1) == weight);
            lemma_add_mod_noop(luhn_sum_from(number@, i as int), weight as int, 10);
            assert(luhn_sum_from(number@, i - 1) == weight + luhn_sum_from(number@, i as int));
        }
        total = (total + weight) % 10;
        i = i - 1;
    }
    total == 0
}

/// The Luhn verdict has no formatting sensitivity: two digit strings that
/// spell the same sequence of digit values get the same verdict.
pub proof fn lemma_luhn_depends_on_digits(a: Seq<char>, b: Seq<char>)
    requires
        all_digits(a),
        all_digits(b),
        a.len() == b.len(),
        forall|i: int| 0 <= i < a.len() ==> digit_value(a[i]) == digit_value(b[i]),
    ensures
        spec_luhn(a) == spec_luhn(b),
{
    assert forall|i: int| 0 <= i < a.len() implies a[i] == b[i] by {
        assert(digit_value(a[i]) == digit_value(b[i]));
        assert(a[i] as u32 == b[i] as u32);
        vstd::utf8::char_u32_cast(a[i], a[i] as u32);
        vstd::utf8::char_u32_cast(b[i], b[i] as u32);
    }
    assert(a =~= b);
}

} // verus!
