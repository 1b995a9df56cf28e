//! The matching engine over the brand rule table.
//!
//! Identification walks the table in its fixed order and returns the first
//! rule that accepts the candidate — first match, not best match: the table
//! order is the tie-break for overlapping ranges.  A rule accepts a
//! candidate when the digit count passes the bounds extracted from its full
//! pattern and the cleaned pattern matches.  CVV validation and the
//! informational lookups are independent read paths over the same table,
//! keyed by brand identifier or scheme.

use vstd::prelude::*;

use crate::brands::Brand;
use crate::brands::BrandView;
use crate::brands::brand_rules;
use crate::brands::spec_brands;
use crate::brands::table_views;
use crate::extract::extract_length_from_regex;
use crate::extract::spec_extract;
use crate::rx::pattern_compiles;
use crate::rx::pattern_matches;
use crate::rx::regex_is_match;
use crate::text::str_eq;

verus! {

/// The digit-count gate: a zero bound leaves that side unconstrained.
pub open spec fn spec_len_ok(mn: int, mx: int, n: int) -> bool {
    (mn == 0 || n >= mn) && (mx == 0 || n <= mx)
}

/// Whether one rule accepts a candidate: the candidate's digit count
/// passes the bounds embedded in the rule's full pattern, and the pattern
/// with those bounds stripped compiles and matches.
pub open spec fn spec_rule_matches(b: BrandView, s: Seq<char>) -> bool {
    let e = spec_extract(b.regexp_full);
    spec_len_ok(e.1, e.2, s.len() as int) && pattern_compiles(e.0) && pattern_matches(e.0, s)
}

/// The first rule at or after index `i` that accepts `s`, in table order.
pub open spec fn spec_find_from(s: Seq<char>, i: int) -> Option<Seq<char>>
    decreases spec_brands().len() - i,
{
    if i < 0 || i >= spec_brands().len() {
        None
    } else if spec_rule_matches(spec_brands()[i], s) {
        Some(spec_brands()[i].name)
    } else {
        spec_find_from(s, i + 1)
    }
}

/// The identifier the engine assigns to a candidate: empty input matches
/// nothing; otherwise the first accepting rule in table order wins.
pub open spec fn spec_find_brand(s: Seq<char>) -> Option<Seq<char>> {
    if s.len() == 0 {
        None
    } else {
        spec_find_from(s, 0)
    }
}

/// The first rule at or after index `i` whose identifier is `name`.
pub open spec fn spec_rule_for_name(name: Seq<char>, i: int) -> Option<BrandView>
    decreases spec_brands().len() - i,
{
    if i < 0 || i >= spec_brands().len() {
        None
    } else if spec_brands()[i].name == name {
        Some(spec_brands()[i])
    } else {
        spec_rule_for_name(name, i + 1)
    }
}

/// The rule registered under a brand identifier, if any.
pub open spec fn spec_brand_rule(name: Seq<char>) -> Option<BrandView> {
    spec_rule_for_name(name, 0)
}

/// The first rule at or after index `i` whose scheme is `scheme`.
pub open spec fn spec_rule_for_scheme(scheme: Seq<char>, i: int) -> Option<BrandView>
    decreases spec_brands().len() - i,
{
    if i < 0 || i >= spec_brands().len() {
        None
    } else if spec_brands()[i].scheme == scheme {
        Some(spec_brands()[i])
    } else {
        spec_rule_for_scheme(scheme, i + 1)
    }
}

/// The detailed record registered under a scheme, if any.
pub open spec fn spec_brand_detail(scheme: Seq<char>) -> Option<BrandView> {
    spec_rule_for_scheme(scheme, 0)
}

/// The detailed record for the brand assigned to a candidate: empty when
/// identification found nothing, or when no record carries the scheme.
pub open spec fn spec_find_brand_detailed(s: Seq<char>) -> Option<BrandView> {
    match spec_find_brand(s) {
        Some(name) => spec_brand_detail(name),
        None => None,
    }
}

/// A CVV is valid for a brand identifier when it is non-empty, the
/// identifier is registered, and the brand's CVV pattern compiles and
/// matches the CVV.
pub open spec fn spec_validate_cvv(cvv: Seq<char>, brand_name: Seq<char>) -> bool {
    &&& cvv.len() > 0
    &&& match spec_brand_rule(brand_name) {
        Some(b) => pattern_compiles(b.regexp_cvv) && pattern_matches(b.regexp_cvv, cvv),
        None => false,
    }
}

/// The identifiers of the whole table, in table order.
pub open spec fn spec_brand_names() -> Seq<Seq<char>> {
    spec_brands().map_values(|b: BrandView| b.name)
}

/// Finds the brand of a card number: the first rule in table order whose
/// digit-count bounds and full pattern both accept the number.  Empty
/// input, and input no rule accepts, yield no brand.
pub fn find_brand(card_number: &str) -> (r: Option<String>)
    ensures
        match r {
            Some(name) => spec_find_brand(card_number@) == Some(name@),
            None => spec_find_brand(card_number@) is None,
        },
{
    let n = card_number.unicode_len();
    if n == 0 {
        return None;
    }
    let rules = brand_rules();
    let mut i: usize = 0;
    while i < rules.len()
        invariant
            n == card_number@.len(),
            n > 0,
            table_views(rules@) == spec_brands(),
            rules@.len() == spec_brands().len(),
            i <= rules@.len(),
            spec_find_from(card_number@, 0) == spec_find_from(card_number@, i as int),
        decreases rules@.len() - i,
    {
        proof {
            assert(table_views(rules@)[i as int] == rules@[i as int]@);
        }
        let rule = &rules[i];
        let extracted = extract_length_from_regex(rule.regexp_full.as_str());
        let (clean, min_len, max_len) = extracted;
        let len_ok = (min_len == 0 || n >= min_len) && (max_len == 0 || n <= max_len);
        if len_ok {
            let hit = match regex_is_match(clean.as_str(), card_number) {
                Some(m) => m,
                None => false,
            };
            if hit {
                proof {
                    assert(spec_rule_matches(spec_brands()[i as int], card_number@));
                }
                return Some(rule.name.clone());
            }
            proof {
                assert(!spec_rule_matches(spec_brands()[i as int], card_number@));
            }
        } else {
            proof {
                assert(!spec_rule_matches(spec_brands()[i as int], card_number@));
            }
        }
        i = i + 1;
    }
    None
}

/// Whether any brand rule accepts the card number.
pub fn is_supported(card_number: &str) -> (r: bool)
    ensures
        r == (spec_find_brand(card_number@) is Some),
{
    find_brand(card_number).is_some()
}

/// Validates a CVV against the named brand's CVV pattern.  An empty CVV
/// and an unregistered brand identifier both fail, never fault.
pub fn validate_cvv(cvv: &str, brand_name: &str) -> (r: bool)
    ensures
        r == spec_validate_cvv(cvv@, brand_name@),
        cvv@.len() == 0 ==> !r,
        spec_brand_rule(brand_name@) is None ==> !r,
{
    if cvv.unicode_len() == 0 {
        return false;
    }
    let rules = brand_rules();
    let mut i: usize = 0;
    while i < rules.len()
        invariant
            cvv@.len() > 0,
            table_views(rules@) == spec_brands(),
            rules@.len() == spec_brands().len(),
            i <= rules@.len(),
            spec_rule_for_name(brand_name@, 0) == spec_rule_for_name(brand_name@, i as int),
        decreases rules@.len() - i,
    {
        proof {
            assert(table_views(rules@)[i as int] == rules@[i as int]@);
        }
        let rule = &rules[i];
        if str_eq(rule.name.as_str(), brand_name) {
            proof {
                assert(spec_brands()[i as int].name == brand_name@);
                assert(spec_rule_for_name(brand_name@, i as int) == Some(
                    spec_brands()[i as int],
                ));
            }
            let hit = match regex_is_match(rule.regexp_cvv.as_str(), cvv) {
                Some(m) => m,
                None => false,
            };
            return hit;
        }
        i = i + 1;
    }
    false
}

/// An owned copy of one brand rule.
fn clone_brand(b: &Brand) -> (r: Brand)
    ensures
        r@ == b@,
{
    let mut number_lengths: Vec<usize> = Vec::new();
    let mut i: usize = 0;
    while i < b.number_lengths.len()
        invariant
            i <= b.number_lengths@.len(),
            number_lengths@ == b.number_lengths@.subrange(0, i as int),
        decreases b.number_lengths@.len() - i,
    {
        number_lengths.push(b.number_lengths[i]);
        proof {
            assert(number_lengths@ =~= b.number_lengths@.subrange(0, i + 1));
        }
        i = i + 1;
    }
    proof {
        assert(number_lengths@ =~= b.number_lengths@);
    }
    Brand {
        name: b.name.clone(),
        scheme: b.scheme.clone(),
        brand: b.brand.clone(),
        brand_type: b.brand_type.clone(),
        number_lengths,
        regexp_bin: b.regexp_bin.clone(),
        regexp_full: b.regexp_full.clone(),
        regexp_cvv: b.regexp_cvv.clone(),
    }
}

/// Looks a brand rule up by its identifier.
pub fn get_brand_info(brand_name: &str) -> (r: Option<Brand>)
    ensures
        match r {
            Some(b) => spec_brand_rule(brand_name@) == Some(b@),
            None => spec_brand_rule(brand_name@) is None,
        },
{
    let rules = brand_rules();
    let mut i: usize = 0;
    while i < rules.len()
        invariant
            table_views(rules@) == spec_brands(),
            rules@.len() == spec_brands().len(),
            i <= rules@.len(),
            spec_rule_for_name(brand_name@, 0) == spec_rule_for_name(brand_name@, i as int),
        decreases rules@.len() - i,
    {
        proof {
            assert(table_views(rules@)[i as int] == rules@[i as int]@);
        }
        let rule = &rules[i];
        if str_eq(rule.name.as_str(), brand_name) {
            return Some(clone_brand(rule));
        }
        i = i + 1;
    }
    None
}

/// Looks a detailed brand record up by its scheme.
pub fn get_brand_info_detailed(scheme: &str) -> (r: Option<Brand>)
    ensures
        match r {
            Some(b) => spec_brand_detail(scheme@) == Some(b@),
            None => spec_brand_detail(scheme@) is None,
        },
{
    let rules = brand_rules();
    let mut i: usize = 0;
    while i < rules.len()
        invariant
            table_views(rules@) == spec_brands(),
            rules@.len() == spec_brands().len(),
            i <= rules@.len(),
            spec_rule_for_scheme(scheme@, 0) == spec_rule_for_scheme(scheme@, i as int),
        decreases rules@.len() - i,
    {
        proof {
            assert(table_views(rules@)[i as int] == rules@[i as int]@);
        }
        let rule = &rules[i];
        if str_eq(rule.scheme.as_str(), scheme) {
            return Some(clone_brand(rule));
        }
        i = i + 1;
    }
    None
}

/// Finds the brand of a card number and returns its detailed record.
pub fn find_brand_detailed(card_number: &str) -> (r: Option<Brand>)
    ensures
        match r {
            Some(b) => spec_find_brand_detailed(card_number@) == Some(b@),
            None => spec_find_brand_detailed(card_number@) is None,
        },
{
    match find_brand(card_number) {
        Some(name) => get_brand_info_detailed(name.as_str()),
        None => None,
    }
}

/// Lists the identifiers of every brand, in table order; each call yields
/// the same list.
pub fn list_brands() -> (r: Vec<String>)
    ensures
        r@.map_values(|s: String| s@) == spec_brand_names(),
{
    let rules = brand_rules();
    let mut out: Vec<String> = Vec::new();
    let mut i: usize = 0;
    while i < rules.len()
        invariant
            table_views(rules@) == spec_brands(),
            rules@.len() == spec_brands().len(),
            i <= rules@.len(),
            out@.len() == i,
            forall|j: int| 0 <= j < i ==> out@[j]@ == spec_brand_names()[j],
        decreases rules@.len() - i,
    {
        proof {
            assert(table_views(rules@)[i as int] == rules@[i as int]@);
            assert(spec_brand_names()[i as int] == spec_brands()[i as int].name);
        }
        let rule = &rules[i];
        out.push(rule.name.clone());
        i = i + 1;
    }
    proof {
        assert(out@.map_values(|s: String| s@) =~= spec_brand_names());
    }
    out
}

/// The brand list is never empty and holds the two major networks.
pub proof fn lemma_brand_list_contents()
    ensures
        spec_brand_names().len() > 0,
        spec_brand_names().contains("visa"@),
        spec_brand_names().contains("mastercard"@),
{
    assert(spec_brand_names()[7] == "visa"@);
    assert(spec_brand_names()[6] == "mastercard"@);
}

/// Every identifier the matcher can return names some rule of the table.
proof fn lemma_find_from_member(s: Seq<char>, i: int)
    requires
        0 <= i <= spec_brands().len(),
    ensures
        spec_find_from(s, i) matches Some(nm) ==> exists|k: int|
            i <= k < spec_brands().len() && spec_brands()[k].name == nm,
    decreases spec_brands().len() - i,
{
    if i < spec_brands().len() {
        if !spec_rule_matches(spec_brands()[i], s) {
            lemma_find_from_member(s, i + 1);
        }
    }
}

/// A scheme lookup succeeds whenever some rule at or after `i` carries the
/// scheme.
proof fn lemma_scheme_lookup_finds(scheme: Seq<char>, i: int, w: int)
    requires
        0 <= i <= w < spec_brands().len(),
        spec_brands()[w].scheme == scheme,
    ensures
        spec_rule_for_scheme(scheme, i) is Some,
    decreases w - i,
{
    if spec_brands()[i].scheme != scheme {
        lemma_scheme_lookup_finds(scheme, i + 1, w);
    }
}

/// In this table every rule's scheme equals its identifier.
proof fn lemma_scheme_eq_name(k: int)
    requires
        0 <= k < spec_brands().len(),
    ensures
        spec_brands()[k].scheme == spec_brands()[k].name,
{
}

/// The two tables are kept in identifier-consistent sync: whenever
/// identification assigns a brand, a detailed record for it exists, so the
/// detailed result is empty only when identification itself found nothing.
pub proof fn lemma_detailed_in_sync(s: Seq<char>)
    ensures
        spec_find_brand_detailed(s) is Some <==> spec_find_brand(s) is Some,
{
    if spec_find_brand(s) is Some {
        let nm = spec_find_brand(s)->Some_0;
        lemma_find_from_member(s, 0);
        let k = choose|k: int|
            0 <= k < spec_brands().len() && spec_brands()[k].name == nm;
        lemma_scheme_eq_name(k);
        lemma_scheme_lookup_finds(nm, 0, k);
    }
}

} // verus!
