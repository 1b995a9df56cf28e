//! The pattern engine behind the trusted boundary.
//!
//! Pattern evaluation is delegated to the regex crate.  Nothing is assumed
//! about what any pattern means: the two names below stand for the engine's
//! verdicts, and every contract above them speaks through those names.

use vstd::prelude::*;

verus! {

/// Whether the pattern engine accepts `pattern` as a valid pattern; a
/// function of the pattern text alone.
pub uninterp spec fn pattern_compiles(pattern: Seq<char>) -> bool;

/// Whether `pattern` matches anywhere in `text`; a function of the two
/// texts alone.
pub uninterp spec fn pattern_matches(pattern: Seq<char>, text: Seq<char>) -> bool;

/// Relies on regex::Regex::new, whose outcome under the default
/// configuration depends on the pattern text alone (invalid syntax and
/// over-large compiled forms are rejected with an error, never a panic),
/// and on regex::Regex::is_match, which returns whether the pattern matches
/// anywhere in the text, a function of the pattern and the text alone.
#[verifier::external_body]
pub(crate) fn regex_is_match(pattern: &str, text: &str) -> (r: Option<bool>)
    ensures
        r is Some <==> pattern_compiles(pattern@),
        r matches Some(m) ==> m == pattern_matches(pattern@, text@),
{
    match regex::Regex::new(pattern) {
        Ok(re) => Some(re.is_match(text)),
        Err(_) => None,
    }
}

} // verus!
