//! Length-assertion extraction from a full-number pattern.
//!
//! A full-number pattern may embed a digit-count assertion written
//! `(?=.{N}$)` (exact) or `(?=.{N,M}$)` (range).  The pattern engine is not
//! given that assertion: at table-preparation time the first such assertion
//! is removed from the pattern text and its bounds are returned as explicit
//! numbers, which the matching engine enforces as a separate digit-count
//! test.  A bound of zero leaves that side unconstrained; a bound too large
//! for `usize` also becomes zero, as an unparsable bound.

use vstd::prelude::*;

use crate::text::is_digit_char;

verus! {

/// The value of a run of decimal digits, most significant first.
pub open spec fn digits_value(s: Seq<char>) -> int
    decreases s.len(),
{
    if s.len() == 0 {
        0
    } else {
        digits_value(s.drop_last()) * 10 + (s.last() as u32 - 48)
    }
}

/// The first index at or after `i` that does not hold a decimal digit.
pub open spec fn digits_end(s: Seq<char>, i: int) -> int
    decreases s.len() - i,
{
    if i < 0 || i >= s.len() {
        i
    } else if is_digit_char(s[i]) {
        digits_end(s, i + 1)
    } else {
        i
    }
}

/// A bound that fits in `usize` stands as itself; any other parse outcome
/// collapses to zero, the unconstrained bound.
pub open spec fn capped(v: int) -> int {
    if v > usize::MAX {
        0
    } else {
        v
    }
}

/// The five characters `(?=.{` open a length assertion at index `i`.
pub open spec fn assertion_opens_at(s: Seq<char>, i: int) -> bool {
    &&& 0 <= i
    &&& i + 5 <= s.len()
    &&& s[i] == '('
    &&& s[i + 1] == '?'
    &&& s[i + 2] == '='
    &&& s[i + 3] == '.'
    &&& s[i + 4] == '{'
}

/// The three characters `}$)` close a length assertion at index `i`.
pub open spec fn assertion_closes_at(s: Seq<char>, i: int) -> bool {
    &&& 0 <= i
    &&& i + 3 <= s.len()
    &&& s[i] == '}'
    &&& s[i + 1] == '$'
    &&& s[i + 2] == ')'
}

/// A whole length assertion starting at index `i`: the opener, one digit
/// run (and after a comma, a second), and the closer.  Yields the index
/// just past the assertion and the two uncapped bounds; an exact assertion
/// carries its one bound twice.
pub open spec fn assertion_at(s: Seq<char>, i: int) -> Option<(int, int, int)> {
    if assertion_opens_at(s, i) {
        let d1 = i + 5;
        let e1 = digits_end(s, d1);
        if e1 == d1 {
            None
        } else if assertion_closes_at(s, e1) {
            Some((e1 + 3, digits_value(s.subrange(d1, e1)), digits_value(s.subrange(d1, e1))))
        } else if e1 < s.len() && s[e1] == ',' {
            let d2 = e1 + 1;
            let e2 = digits_end(s, d2);
            if e2 > d2 && assertion_closes_at(s, e2) {
                Some((e2 + 3, digits_value(s.subrange(d1, e1)), digits_value(s.subrange(d2, e2))))
            } else {
                None
            }
        } else {
            None
        }
    } else {
        None
    }
}

/// The leftmost length assertion at or after index `i`: its start, its end,
/// and its two uncapped bounds.
pub open spec fn found_assertion(s: Seq<char>, i: int) -> Option<(int, int, int, int)>
    decreases s.len() - i,
{
    if i < 0 || i >= s.len() {
        None
    } else {
        match assertion_at(s, i) {
            Some(t) => Some((i, t.0, t.1, t.2)),
            None => found_assertion(s, i + 1),
        }
    }
}

/// What extraction yields: the pattern with its leftmost length assertion
/// removed and the capped bounds, or the pattern unchanged and `(0, 0)`
/// when it embeds no assertion.
pub open spec fn spec_extract(s: Seq<char>) -> (Seq<char>, int, int) {
    match found_assertion(s, 0) {
        Some(t) => (s.subrange(0, t.0) + s.subrange(t.1, s.len() as int), capped(t.2), capped(t.3)),
        None => (s, 0, 0),
    }
}

/// Scans the run of decimal digits starting at `from`: returns the index
/// just past the run and the capped value of the run.
fn scan_digits(s: &str, from: usize, n: usize) -> (r: (usize, usize))
    requires
        n == s@.len(),
        from <= n,
    ensures
        from <= r.0 <= n,
        r.0 == digits_end(s@, from as int),
        r.1 == capped(digits_value(s@.subrange(from as int, r.0 as int))),
{
    let mut j: usize = from;
    let mut acc: usize = 0;
    let mut over: bool = false;
    loop
        invariant
            n == s@.len(),
            from <= j <= n,
            digits_end(s@, from as int) == digits_end(s@, j as int),
            !over ==> acc == digits_value(s@.subrange(from as int, j as int)),
            over ==> digits_value(s@.subrange(from as int, j as int)) > usize::MAX,
        ensures
            from <= j <= n,
            j == digits_end(s@, from as int),
            !over ==> acc == digits_value(s@.subrange(from as int, j as int)),
            over ==> digits_value(s@.subrange(from as int, j as int)) > usize::MAX,
        decreases n - j,
    {
        if j == n {
            assert(digits_end(s@, j as int) == j);
            break;
        }
        let c = s.get_char(j);
        let v = c as u32;
        if v < 48 || v > 57 {
            assert(!is_digit_char(s@[j as int]));
            assert(digits_end(s@, j as int) == j);
            break;
        }
        let d: usize = (v - 48) as usize;
        proof {
            let run = s@.subrange(from as int, j as int);
            let grown = s@.subrange(from as int, j + 1);
            assert(grown.drop_last() =~= run);
            assert(grown.last() == s@[j as int]);
            assert(digits_value(grown) == digits_value(run) * 10 + d);
            if over {
                let val = digits_value(run);
                assert(val * 10 >= val) by (nonlinear_arith)
                    requires
                        val > 0,
                ;
            }
        }
        if !over {
            match acc.checked_mul(10) {
                Some(t) => {
                    match t.checked_add(d) {
                        Some(t2) => {
                            acc = t2;
                        },
                        None => {
                            over = true;
                        },
                    }
                },
                None => {
                    over = true;
                },
            }
        }
        j = j + 1;
    }
    (j, if over { 0 } else { acc })
}

/// Whether `}$)` stands at index `i`.
fn closer_at(s: &str, i: usize, n: usize) -> (r: bool)
    requires
        n == s@.len(),
        i <= n,
    ensures
        r == assertion_closes_at(s@, i as int),
{
    n - i >= 3 && s.get_char(i) == '}' && s.get_char(i + 1) == '$' && s.get_char(i + 2) == ')'
}

/// Recognises a whole length assertion starting at index `i`, returning the
/// index just past it and the two capped bounds.
fn try_assertion_at(s: &str, i: usize, n: usize) -> (r: Option<(usize, usize, usize)>)
    requires
        n == s@.len(),
        i < n,
    ensures
        r is Some <==> assertion_at(s@, i as int) is Some,
        r matches Some(t) ==> {
            &&& assertion_at(s@, i as int) matches Some(u) && t.0 == u.0 && t.1 == capped(u.1)
                && t.2 == capped(u.2)
            &&& i < t.0 <= n
        },
{
    if n - i < 5 {
        return None;
    }
    if !(s.get_char(i) == '(' && s.get_char(i + 1) == '?' && s.get_char(i + 2) == '='
        && s.get_char(i + 3) == '.' && s.get_char(i + 4) == '{') {
        return None;
    }
    assert(assertion_opens_at(s@, i as int));
    let d1 = i + 5;
    let (e1, v1) = scan_digits(s, d1, n);
    if e1 == d1 {
        return None;
    }
    if closer_at(s, e1, n) {
        return Some((e1 + 3, v1, v1));
    }
    if e1 < n && s.get_char(e1) == ',' {
        let d2 = e1 + 1;
        let (e2, v2) = scan_digits(s, d2, n);
        if e2 > d2 && closer_at(s, e2, n) {
            return Some((e2 + 3, v1, v2));
        }
        return None;
    }
    None
}

/// Splits a full-number pattern into the text handed to the pattern engine
/// and the explicit digit-count bounds: the leftmost embedded assertion
/// `(?=.{N}$)` or `(?=.{N,M}$)` is removed from the pattern and its bounds
/// are returned, zero standing for an unconstrained side; a pattern with no
/// embedded assertion comes back unchanged with bounds `(0, 0)`.
pub fn extract_length_from_regex(pattern: &str) -> (r: (String, usize, usize))
    ensures
        r.0@ == spec_extract(pattern@).0,
        r.1 == spec_extract(pattern@).1,
        r.2 == spec_extract(pattern@).2,
{
    let n = pattern.unicode_len();
    let mut i: usize = 0;
    while i < n
        invariant
            n == pattern@.len(),
            i <= n,
            found_assertion(pattern@, 0) == found_assertion(pattern@, i as int),
        decreases n - i,
    {
        match try_assertion_at(pattern, i, n) {
            Some(t) => {
                let (end, mn, mx) = t;
                let mut clean = pattern.substring_char(0, i).to_owned();
                clean.append(pattern.substring_char(end, n));
                return (clean, mn, mx);
            },
            None => {
                i = i + 1;
            },
        }
    }
    (pattern.to_owned(), 0, 0)
}

} // verus!
