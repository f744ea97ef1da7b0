//! Field checks for the purchase, login and sign-up forms.
use vstd::prelude::*;
use vstd::string::*;

verus! {

/// Pattern of an address of the shape `local@domain.tld`.
pub const EMAIL_PATTERN: &'static str = "^[A-Za-z0-9._%+-]+@[A-Za-z0-9.-]+\\.[A-Za-z]{2,}$";

/// Pattern of an expiry date `MM/YY` with `MM` in `01..12`.
pub const EXPIRY_PATTERN: &'static str = "^(0[1-9]|1[0-2])/[0-9]{2}$";

pub open spec fn is_ascii_digit(c: char) -> bool {
    '0' <= c && c <= '9'
}

pub open spec fn is_ascii_letter(c: char) -> bool {
    ('a' <= c && c <= 'z') || ('A' <= c && c <= 'Z')
}

pub open spec fn is_ascii_alnum(c: char) -> bool {
    is_ascii_letter(c) || is_ascii_digit(c)
}

/// A character of the part of an address before `@`.
pub open spec fn is_local_char(c: char) -> bool {
    is_ascii_alnum(c) || c == '.' || c == '_' || c == '%' || c == '+' || c == '-'
}

/// A character of the part of an address after `@`.
pub open spec fn is_domain_char(c: char) -> bool {
    is_ascii_alnum(c) || c == '.' || c == '-'
}

/// `s` is a non-empty local part, `@`, a non-empty domain, `.`, and a
/// top-level domain of at least two ASCII letters.
pub open spec fn email_shape(s: Seq<char>) -> bool {
    exists|at: int, dot: int|
        0 < at && at + 1 < dot && dot + 2 < s.len() && s[at] == '@' && s[dot] == '.' && (forall|
            i: int,
        |
            0 <= i < at ==> #[trigger] is_local_char(s[i])) && (forall|i: int|
            at < i < dot ==> #[trigger] is_domain_char(s[i])) && (forall|i: int|
            dot < i < s.len() ==> #[trigger] is_ascii_letter(s[i]))
}

/// `s` is `MM/YY`: a month from `01` to `12`, a slash, two ASCII digits.
pub open spec fn expiry_shape(s: Seq<char>) -> bool {
    &&& s.len() == 5
    &&& ((s[0] == '0' && '1' <= s[1] && s[1] <= '9') || (s[0] == '1' && '0' <= s[1] && s[1]
        <= '2'))
    &&& s[2] == '/'
    &&& is_ascii_digit(s[3])
    &&& is_ascii_digit(s[4])
}

/// `s` holds exactly `n` characters, all ASCII digits.
pub open spec fn all_digits_of_len(s: Seq<char>, n: nat) -> bool {
    s.len() == n && forall|i: int| 0 <= i < s.len() ==> #[trigger] is_ascii_digit(s[i])
}

/// A card number: exactly 16 ASCII digits.
pub open spec fn card_number_shape(s: Seq<char>) -> bool {
    all_digits_of_len(s, 16)
}

/// A card verification value: exactly 3 ASCII digits.
pub open spec fn cvv_shape(s: Seq<char>) -> bool {
    all_digits_of_len(s, 3)
}

/// Relies on regex's `Regex::new` and `Regex::is_match`. Both patterns
/// compile; each is anchored at both ends, so `is_match` tells whether the
/// whole text has the shape the pattern describes.
#[verifier::external_body]
fn pattern_matches(pattern: &str, text: &str) -> (r: bool)
    requires
        pattern@ == EMAIL_PATTERN@ || pattern@ == EXPIRY_PATTERN@,
    ensures
        pattern@ == EMAIL_PATTERN@ ==> r == email_shape(text@),
        pattern@ == EXPIRY_PATTERN@ ==> r == expiry_shape(text@),
{
    regex::Regex::new(pattern).unwrap().is_match(text)
}

pub fn is_valid_email(email: &String) -> (r: bool)
    ensures
        r == email_shape(email@),
{
    pattern_matches(EMAIL_PATTERN, email.as_str())
}

pub fn is_valid_exp(exp: &String) -> (r: bool)
    ensures
        r == expiry_shape(exp@),
{
    pattern_matches(EXPIRY_PATTERN, exp.as_str())
}

/// Whether `s` holds exactly `n` characters, all ASCII digits.
fn digits_of_len(s: &str, n: usize) -> (r: bool)
    ensures
        r == all_digits_of_len(s@, n as nat),
{
    let len = s.unicode_len();
    if len != n {
        return false;
    }
    let mut i: usize = 0;
    while i < len
        invariant
            len == s@.len(),
            i <= len,
            forall|j: int| 0 <= j < i ==> #[trigger] is_ascii_digit(s@[j]),
        decreases len - i,
    {
        let c = s.get_char(i);
        if !('0' <= c && c <= '9') {
            assert(!is_ascii_digit(s@[i as int]));
            return false;
        }
        i = i + 1;
    }
    true
}

pub fn is_valid_card_number(card_num: &String) -> (r: bool)
    ensures
        r == card_number_shape(card_num@),
{
    digits_of_len(card_num.as_str(), 16)
}

pub fn is_valid_cvv(cvv: &String) -> (r: bool)
    ensures
        r == cvv_shape(cvv@),
{
    digits_of_len(cvv.as_str(), 3)
}

pub fn is_valid_password(password: &String) -> (r: bool)
    ensures
        r == (password@.len() > 0),
{
    !password.as_str().is_empty()
}

} // verus!
