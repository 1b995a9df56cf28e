use creditcard_identifier::find_brand;
use creditcard_identifier::is_supported;
use creditcard_identifier::luhn;
use creditcard_identifier::validate_cvv;

#[test]
fn test_luhn() {
    assert!(luhn("4012001037141112"));
    assert!(!luhn("4012001037141113"));
}

#[test]
fn test_find_brand() {
    assert_eq!(find_brand("4012001037141112"), Some("visa".to_string()));
    assert_eq!(find_brand("5533798818319497"), Some("mastercard".to_string()));
    assert_eq!(find_brand("1234567890123456"), None);
}

#[test]
fn lib_test_is_supported() {
    assert!(is_supported("4012001037141112"));
    assert!(!is_supported("1234567890123456"));
}

#[test]
fn lib_test_validate_cvv() {
    assert!(validate_cvv("123", "visa"));
    assert!(validate_cvv("1234", "amex"));
    assert!(!validate_cvv("12", "visa"));
}
