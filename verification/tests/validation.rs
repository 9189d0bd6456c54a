use passgen::validation::validate_usize;

#[test]
fn plain_positive_numbers_are_accepted() {
    assert!(validate_usize(&"1".to_string()).is_ok());
    assert!(validate_usize(&"128".to_string()).is_ok());
    assert!(validate_usize(&"007".to_string()).is_ok());
    assert!(validate_usize(&"18446744073709551615".to_string()).is_ok());
}

#[test]
fn a_leading_plus_sign_is_accepted() {
    assert!(validate_usize(&"+5".to_string()).is_ok());
}

#[test]
fn zero_is_rejected() {
    assert!(validate_usize(&"0".to_string()).is_err());
    assert!(validate_usize(&"000".to_string()).is_err());
}

#[test]
fn text_that_is_no_numeral_is_rejected() {
    assert!(validate_usize(&"".to_string()).is_err());
    assert!(validate_usize(&"+".to_string()).is_err());
    assert!(validate_usize(&"abc".to_string()).is_err());
    assert!(validate_usize(&"12a".to_string()).is_err());
    assert!(validate_usize(&"-3".to_string()).is_err());
    assert!(validate_usize(&" 3".to_string()).is_err());
}

#[test]
fn values_too_large_for_the_machine_are_rejected() {
    assert!(validate_usize(&"18446744073709551616".to_string()).is_err());
    assert!(validate_usize(&"99999999999999999999999".to_string()).is_err());
}
