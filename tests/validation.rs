use theater::validation::{
    is_valid_card_number, is_valid_cvv, is_valid_email, is_valid_exp, is_valid_password,
};

fn s(text: &str) -> String {
    text.to_string()
}

#[test]
fn card_number_of_sixteen_digits_passes() {
    assert!(is_valid_card_number(&s("1234567890123456")));
}

#[test]
fn card_number_of_fifteen_digits_fails() {
    assert!(!is_valid_card_number(&s("123456789012345")));
}

#[test]
fn card_number_of_seventeen_digits_fails() {
    assert!(!is_valid_card_number(&s("12345678901234567")));
}

#[test]
fn card_number_with_a_letter_fails() {
    assert!(!is_valid_card_number(&s("123456789012345a")));
}

#[test]
fn card_number_with_non_ascii_digits_fails() {
    assert!(!is_valid_card_number(&s("²²²²²²²²")));
    assert!(!is_valid_card_number(&s("١٢٣٤٥٦٧٨٩٠١٢٣٤٥٦")));
}

#[test]
fn empty_card_number_fails() {
    assert!(!is_valid_card_number(&s("")));
}

#[test]
fn cvv_of_three_digits_passes() {
    assert!(is_valid_cvv(&s("123")));
    assert!(is_valid_cvv(&s("000")));
}

#[test]
fn non_numeric_cvv_fails() {
    assert!(!is_valid_cvv(&s("12a")));
    assert!(!is_valid_cvv(&s("abc")));
}

#[test]
fn cvv_of_wrong_length_fails() {
    assert!(!is_valid_cvv(&s("12")));
    assert!(!is_valid_cvv(&s("1234")));
}

#[test]
fn expiry_in_month_range_passes() {
    assert!(is_valid_exp(&s("09/27")));
    assert!(is_valid_exp(&s("01/00")));
    assert!(is_valid_exp(&s("12/99")));
}

#[test]
fn expiry_out_of_month_range_fails() {
    assert!(!is_valid_exp(&s("00/27")));
    assert!(!is_valid_exp(&s("13/27")));
}

#[test]
fn expiry_of_other_shapes_fails() {
    assert!(!is_valid_exp(&s("9/27")));
    assert!(!is_valid_exp(&s("09-27")));
    assert!(!is_valid_exp(&s("09/2027")));
    assert!(!is_valid_exp(&s("09/27 ")));
    assert!(!is_valid_exp(&s("09/2a")));
    assert!(!is_valid_exp(&s("")));
}

#[test]
fn email_of_usual_shape_passes() {
    assert!(is_valid_email(&s("a@example.com")));
    assert!(is_valid_email(&s("first.last+tag@mail.example.org")));
    assert!(is_valid_email(&s("x_y%z-1@sub-domain.io")));
}

#[test]
fn email_without_at_or_tld_fails() {
    assert!(!is_valid_email(&s("example.com")));
    assert!(!is_valid_email(&s("a@example")));
    assert!(!is_valid_email(&s("a@example.c")));
    assert!(!is_valid_email(&s("@example.com")));
    assert!(!is_valid_email(&s("a@.com")));
    assert!(!is_valid_email(&s("a@@example.com")));
    assert!(!is_valid_email(&s("a b@example.com")));
    assert!(!is_valid_email(&s("a@example.c0m")));
    assert!(!is_valid_email(&s("")));
}

#[test]
fn password_must_not_be_empty() {
    assert!(is_valid_password(&s("x")));
    assert!(!is_valid_password(&s("")));
}
