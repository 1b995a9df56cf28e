use creditcard_identifier::brand_rules;
use creditcard_identifier::extract_length_from_regex;
use creditcard_identifier::find_brand;
use creditcard_identifier::is_supported;
use creditcard_identifier::list_brands;
use creditcard_identifier::luhn;
use creditcard_identifier::validate_cvv;

#[test]
fn test_luhn_rejects_non_digit_input() {
    assert!(!luhn("4012-0010-3714-1112"));
    assert!(!luhn("401200103714111a"));
    assert!(!luhn("abc"));
    assert!(!luhn(" 4012001037141112"));
    assert!(!luhn("４０１２"));
}

#[test]
fn test_luhn_exact_small_values() {
    // "0": sum 0; "18": 8 + double(1) = 10; "59": 9 + double(5) = 9 + 1 = 10.
    assert!(luhn("0"));
    assert!(luhn("18"));
    assert!(luhn("59"));
    assert!(!luhn("1"));
    assert!(!luhn("19"));
}

#[test]
fn test_luhn_repeated_calls_agree() {
    let first = luhn("4012001037141112");
    let second = luhn("4012001037141112");
    assert_eq!(first, second);
    assert!(first);
}

#[test]
fn test_find_brand_agrees_with_is_supported() {
    for number in [
        "4012001037141112",
        "5533798818319497",
        "1234567890123456",
        "",
        "not a number",
        "6500310000000000",
    ] {
        assert_eq!(is_supported(number), find_brand(number).is_some());
    }
}

#[test]
fn test_validate_cvv_empty_and_unknown() {
    assert!(!validate_cvv("", "visa"));
    assert!(!validate_cvv("", "amex"));
    assert!(!validate_cvv("", "unknown-brand-xyz"));
    assert!(!validate_cvv("123", "unknown-brand-xyz"));
    assert!(!validate_cvv("1234", "unknown-brand-xyz"));
    assert!(!validate_cvv("12a", "visa"));
}

#[test]
fn test_list_brands_stable_and_ordered() {
    let first = list_brands();
    let second = list_brands();
    assert_eq!(first, second);
    assert!(!first.is_empty());
    let names: Vec<String> = brand_rules().into_iter().map(|b| b.name).collect();
    assert_eq!(first, names);
}

#[test]
fn test_first_match_order_tie_break() {
    // 509998 lies in both Elo's range and Aura's 50-prefix; Elo stands
    // earlier in the table and must win.
    assert_eq!(find_brand("5099980000000000"), Some("elo".to_string()));
    // 650031 lies in both Elo's range and Discover's 65-prefix.
    assert_eq!(find_brand("6500310000000000"), Some("elo".to_string()));
}

#[test]
fn test_length_bounds_independent_of_pattern() {
    // 15 digits starting with 50: Aura's cleaned pattern alone would
    // accept it, but the extracted length range 16..19 must reject it.
    assert_eq!(find_brand("500000000000000"), None);
    // 16 digits lie inside the range.
    assert_eq!(find_brand("5000000000000000"), Some("aura".to_string()));
}

#[test]
fn test_extract_exact_length_assertion() {
    let (clean, min_len, max_len) = extract_length_from_regex("^(?=.{15}$)3[47][0-9]+$");
    assert_eq!(clean, "^3[47][0-9]+$");
    assert_eq!(min_len, 15);
    assert_eq!(max_len, 15);
}

#[test]
fn test_extract_range_length_assertion() {
    let (clean, min_len, max_len) = extract_length_from_regex("^(?=.{16,19}$)50[0-9]+$");
    assert_eq!(clean, "^50[0-9]+$");
    assert_eq!(min_len, 16);
    assert_eq!(max_len, 19);
}

#[test]
fn test_extract_without_assertion() {
    let (clean, min_len, max_len) = extract_length_from_regex("^6(011|5[0-9]{2})[0-9]{12}$");
    assert_eq!(clean, "^6(011|5[0-9]{2})[0-9]{12}$");
    assert_eq!(min_len, 0);
    assert_eq!(max_len, 0);
}

#[test]
fn test_extract_ignores_incomplete_assertion() {
    let (clean, min_len, max_len) = extract_length_from_regex("^(?=.{}$)4[0-9]*$");
    assert_eq!(clean, "^(?=.{}$)4[0-9]*$");
    assert_eq!(min_len, 0);
    assert_eq!(max_len, 0);
}

#[test]
fn test_table_contents() {
    let rules = brand_rules();
    assert_eq!(rules.len(), 8);
    assert_eq!(rules[0].name, "elo");
    assert_eq!(rules[rules.len() - 1].name, "visa");
    for rule in &rules {
        assert_eq!(rule.name, rule.scheme);
        assert!(!rule.number_lengths.is_empty());
    }
}

#[test]
fn test_brand_cvv_lengths() {
    assert!(validate_cvv("123", "mastercard"));
    assert!(!validate_cvv("1234", "mastercard"));
    assert!(validate_cvv("123", "elo"));
    assert!(!validate_cvv("123", "amex"));
    assert!(validate_cvv("1234", "amex"));
}
