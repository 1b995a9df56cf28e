//! Identification and validation of payment-card numbers.
//!
//! A fixed, ordered table of brand rules drives every operation: the Luhn
//! checksum over a digit string, first-match brand identification against
//! each rule's full-number pattern (with any embedded length assertion
//! stripped out and enforced as an explicit digit-count bound), CVV
//! validation against the matched brand's CVV pattern, and plain lookups
//! over the table.

mod brands;
mod engine;
mod extract;
mod luhn;
mod rx;
mod text;

pub use brands::Brand;
pub use brands::BrandView;
pub use brands::brand_rules;
pub use brands::lemma_table_well_formed;
pub use brands::spec_amex;
pub use brands::spec_aura;
pub use brands::spec_brands;
pub use brands::spec_diners;
pub use brands::spec_discover;
pub use brands::spec_elo;
pub use brands::spec_hipercard;
pub use brands::spec_mastercard;
pub use brands::spec_visa;
pub use brands::table_views;
pub use engine::find_brand;
pub use engine::find_brand_detailed;
pub use engine::get_brand_info;
pub use engine::get_brand_info_detailed;
pub use engine::is_supported;
pub use engine::lemma_brand_list_contents;
pub use engine::lemma_detailed_in_sync;
pub use engine::list_brands;
pub use engine::spec_brand_detail;
pub use engine::spec_brand_names;
pub use engine::spec_brand_rule;
pub use engine::spec_find_brand;
pub use engine::spec_find_brand_detailed;
pub use engine::spec_find_from;
pub use engine::spec_len_ok;
pub use engine::spec_rule_for_name;
pub use engine::spec_rule_for_scheme;
pub use engine::spec_rule_matches;
pub use engine::spec_validate_cvv;
pub use engine::validate_cvv;
pub use extract::assertion_at;
pub use extract::assertion_closes_at;
pub use extract::assertion_opens_at;
pub use extract::capped;
pub use extract::digits_end;
pub use extract::digits_value;
pub use extract::extract_length_from_regex;
pub use extract::found_assertion;
pub use extract::spec_extract;
pub use luhn::lemma_luhn_depends_on_digits;
pub use luhn::luhn;
pub use luhn::doubled_digit;
pub use luhn::luhn_contribution;
pub use luhn::luhn_sum;
pub use luhn::luhn_sum_from;
pub use luhn::spec_luhn;
pub use rx::pattern_compiles;
pub use rx::pattern_matches;
pub use text::all_digits;
pub use text::digit_value;
pub use text::is_digit_char;
