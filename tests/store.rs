use theater::purchase::{check_form, CheckoutOutcome, FieldValidity, UserInfo};
use theater::store::{
    AccountError, BoxOffice, CatalogError, GateError, Payment, ReserveError, SessionError,
};
use theater::ticket::render_ticket;

const SH1: u64 = 1;

fn showtime_with_seats(n: i32) -> BoxOffice {
    let mut store = BoxOffice::new();
    for number in 1..=n {
        store.add_seat(SH1, number).unwrap();
    }
    store
}

fn form(card: &str, exp: &str, cvv: &str, email: &str) -> UserInfo {
    UserInfo {
        card_num: card.to_string(),
        exp_date: exp.to_string(),
        cvv: cvv.to_string(),
        email: email.to_string(),
    }
}

fn good_form(email: &str) -> UserInfo {
    form("1234567890123456", "09/27", "123", email)
}

fn payment() -> Payment {
    Payment { card_number: "1234567890123456".to_string(), exp_date: "09/27".to_string() }
}

#[test]
fn happy_path_buys_the_seat_and_issues_a_ticket() {
    let mut store = showtime_with_seats(50);
    assert_eq!(store.seat_available(SH1, 7), Some(true));
    let outcome = store.checkout(SH1, 7, &good_form("a@example.com"), 1_700_000_000);
    let id = match outcome {
        CheckoutOutcome::Completed(id) => id,
        other => panic!("unexpected outcome {:?}", other),
    };
    assert_eq!(store.seat_available(SH1, 7), Some(false));
    assert_eq!(store.purchase_count(), 1);
    assert_eq!(store.purchases_of_seat(SH1, 7), 1);
    let seat = store.purchased_seat(id).unwrap();
    assert_eq!((seat.showtime, seat.number), (SH1, 7));
    let purchase = store.purchase(id).unwrap();
    assert_eq!(purchase.time, 1_700_000_000);
    assert_eq!(purchase.payment.card_number, "1234567890123456");
    assert_eq!(purchase.payment.exp_date, "09/27");
    assert_eq!(store.account_count(), 1);
    assert_eq!(store.account_by_email(&"a@example.com".to_string()), Some(purchase.account));
    let svg = render_ticket(&id.to_string()).unwrap();
    assert!(!svg.is_empty());
}

#[test]
fn race_for_one_seat_has_one_winner() {
    let mut store = showtime_with_seats(50);
    let first = store.checkout(SH1, 7, &good_form("a@example.com"), 10);
    let second = store.checkout(SH1, 7, &good_form("b@example.com"), 10);
    assert!(matches!(first, CheckoutOutcome::Completed(_)));
    assert_eq!(second, CheckoutOutcome::Unavailable);
    assert_eq!(store.purchases_of_seat(SH1, 7), 1);
    assert_eq!(store.purchase_count(), 1);
    assert_eq!(store.account_count(), 1);
    assert_eq!(store.account_by_email(&"b@example.com".to_string()), None);
}

#[test]
fn race_between_accounts_has_one_winner() {
    let mut store = showtime_with_seats(10);
    let a = store.register("a@example.com".to_string(), "pw".to_string()).unwrap();
    let b = store.register("b@example.com".to_string(), "pw".to_string()).unwrap();
    assert_eq!(store.reserve_seat(SH1, 7, a, 1, payment()), Ok(0));
    assert_eq!(store.reserve_seat(SH1, 7, b, 2, payment()), Err(ReserveError::SeatUnavailable));
    assert_eq!(store.purchases_of_seat(SH1, 7), 1);
    assert_eq!(store.purchase(0).unwrap().account, a);
}

#[test]
fn unknown_seat_is_not_found_and_changes_nothing() {
    let mut store = showtime_with_seats(50);
    let outcome = store.checkout(SH1, 999, &good_form("a@example.com"), 10);
    assert_eq!(outcome, CheckoutOutcome::SeatNotFound);
    assert_eq!(store.purchase_count(), 0);
    assert_eq!(store.account_count(), 0);
    assert_eq!(store.seat_available(SH1, 999), None);
    let a = store.register("a@example.com".to_string(), "pw".to_string()).unwrap();
    assert_eq!(store.reserve_seat(SH1, 999, a, 1, payment()), Err(ReserveError::SeatNotFound));
    assert_eq!(store.reserve_seat(2, 7, a, 1, payment()), Err(ReserveError::SeatNotFound));
    assert_eq!(store.purchase_count(), 0);
}

#[test]
fn unknown_buyer_is_refused() {
    let mut store = showtime_with_seats(10);
    assert_eq!(store.reserve_seat(SH1, 7, 0, 1, payment()), Err(ReserveError::AccountNotFound));
    assert_eq!(store.seat_available(SH1, 7), Some(true));
    assert_eq!(store.purchase_count(), 0);
}

#[test]
fn fifteen_digit_card_is_rejected_without_a_purchase() {
    let mut store = showtime_with_seats(10);
    let outcome = store.checkout(SH1, 7, &form("123456789012345", "09/27", "123", "a@example.com"), 10);
    assert_eq!(
        outcome,
        CheckoutOutcome::Rejected(FieldValidity {
            valid_card_num: false,
            valid_exp: true,
            valid_cvv: true,
            valid_email: true,
        })
    );
    assert_eq!(store.seat_available(SH1, 7), Some(true));
    assert_eq!(store.purchase_count(), 0);
    assert_eq!(store.account_count(), 0);
}

#[test]
fn non_numeric_cvv_is_rejected_without_a_purchase() {
    let mut store = showtime_with_seats(10);
    let outcome = store.checkout(SH1, 7, &form("1234567890123456", "09/27", "1x3", "a@example.com"), 10);
    assert_eq!(
        outcome,
        CheckoutOutcome::Rejected(FieldValidity {
            valid_card_num: true,
            valid_exp: true,
            valid_cvv: false,
            valid_email: true,
        })
    );
    assert_eq!(store.seat_available(SH1, 7), Some(true));
    assert_eq!(store.purchase_count(), 0);
}

#[test]
fn malformed_expiry_and_email_are_rejected_without_a_purchase() {
    let mut store = showtime_with_seats(10);
    let outcome = store.checkout(SH1, 7, &form("1234567890123456", "2027-09", "123", "nobody"), 10);
    assert_eq!(
        outcome,
        CheckoutOutcome::Rejected(FieldValidity {
            valid_card_num: true,
            valid_exp: false,
            valid_cvv: true,
            valid_email: false,
        })
    );
    assert_eq!(store.seat_available(SH1, 7), Some(true));
    assert_eq!(store.purchase_count(), 0);
}

#[test]
fn check_form_flags_each_field() {
    let flags = check_form(&form("", "13/27", "12", "a@b.co"));
    assert_eq!(
        flags,
        FieldValidity { valid_card_num: false, valid_exp: false, valid_cvv: false, valid_email: true }
    );
    assert!(!flags.all_valid());
    assert!(check_form(&good_form("a@example.com")).all_valid());
}

#[test]
fn checkout_reuses_an_existing_account() {
    let mut store = showtime_with_seats(10);
    let a = store.register("a@example.com".to_string(), "pw".to_string()).unwrap();
    let id = match store.checkout(SH1, 3, &good_form("a@example.com"), 10) {
        CheckoutOutcome::Completed(id) => id,
        other => panic!("unexpected outcome {:?}", other),
    };
    assert_eq!(store.purchase(id).unwrap().account, a);
    assert_eq!(store.account_count(), 1);
}

#[test]
fn session_gate_refuses_missing_or_unknown_token() {
    let mut store = showtime_with_seats(10);
    let a = store.register("a@example.com".to_string(), "pw".to_string()).unwrap();
    store.open_session("tok-1".to_string(), a).unwrap();
    assert_eq!(store.resolve_session(None), Err(GateError::Unauthenticated));
    assert_eq!(store.resolve_session(Some(&"tok-2".to_string())), Err(GateError::Unauthenticated));
    assert_eq!(store.resolve_session(Some(&"tok-1".to_string())), Ok(a));
    assert_eq!(store.purchase_count(), 0);
    assert_eq!(store.seat_available(SH1, 7), Some(true));
}

#[test]
fn closed_session_no_longer_passes_the_gate() {
    let mut store = BoxOffice::new();
    let a = store.register("a@example.com".to_string(), "pw".to_string()).unwrap();
    store.open_session("tok-1".to_string(), a).unwrap();
    store.close_session(&"tok-1".to_string());
    assert_eq!(store.resolve_session(Some(&"tok-1".to_string())), Err(GateError::Unauthenticated));
    store.close_session(&"tok-1".to_string());
}

#[test]
fn session_errors() {
    let mut store = BoxOffice::new();
    assert_eq!(store.open_session("t".to_string(), 0), Err(SessionError::AccountNotFound));
    let a = store.register("a@example.com".to_string(), "pw".to_string()).unwrap();
    assert_eq!(store.open_session("t".to_string(), a), Ok(()));
    assert_eq!(store.open_session("t".to_string(), a), Err(SessionError::TokenInUse));
}

#[test]
fn registration_and_login() {
    let mut store = BoxOffice::new();
    let a = store.register("a@example.com".to_string(), "secret".to_string()).unwrap();
    assert_eq!(
        store.register("a@example.com".to_string(), "other".to_string()),
        Err(AccountError::EmailTaken)
    );
    assert_eq!(store.account_count(), 1);
    assert_eq!(store.log_in(&"a@example.com".to_string(), &"secret".to_string()), Some(a));
    assert_eq!(store.log_in(&"a@example.com".to_string(), &"wrong".to_string()), None);
    assert_eq!(store.log_in(&"b@example.com".to_string(), &"secret".to_string()), None);
}

#[test]
fn account_made_at_checkout_cannot_log_in() {
    let mut store = showtime_with_seats(3);
    store.checkout(SH1, 1, &good_form("a@example.com"), 10);
    assert_eq!(store.account_count(), 1);
    assert_eq!(store.log_in(&"a@example.com".to_string(), &String::new()), None);
}

#[test]
fn catalog_refuses_bad_seats() {
    let mut store = showtime_with_seats(3);
    assert_eq!(store.add_seat(SH1, 0), Err(CatalogError::InvalidNumber));
    assert_eq!(store.add_seat(SH1, -4), Err(CatalogError::InvalidNumber));
    assert_eq!(store.add_seat(SH1, 2), Err(CatalogError::DuplicateSeat));
    assert_eq!(store.add_seat(2, 2), Ok(3));
}

#[test]
fn seats_of_other_showtimes_are_independent() {
    let mut store = BoxOffice::new();
    store.add_seat(1, 7).unwrap();
    store.add_seat(2, 7).unwrap();
    assert!(matches!(store.checkout(1, 7, &good_form("a@example.com"), 1), CheckoutOutcome::Completed(0)));
    assert_eq!(store.seat_available(1, 7), Some(false));
    assert_eq!(store.seat_available(2, 7), Some(true));
    assert!(matches!(store.checkout(2, 7, &good_form("a@example.com"), 2), CheckoutOutcome::Completed(1)));
    assert_eq!(store.account_count(), 1);
}

#[test]
fn checkout_without_session_is_refused_and_reserves_nothing() {
    let mut store = showtime_with_seats(10);
    let a = store.register("a@example.com".to_string(), "pw".to_string()).unwrap();
    store.open_session("tok-1".to_string(), a).unwrap();
    let missing = store.checkout_with_session(None, SH1, 7, &good_form(""), 10);
    assert_eq!(missing, Err(GateError::Unauthenticated));
    let unknown = store.checkout_with_session(Some(&"forged".to_string()), SH1, 7, &good_form(""), 10);
    assert_eq!(unknown, Err(GateError::Unauthenticated));
    assert_eq!(store.seat_available(SH1, 7), Some(true));
    assert_eq!(store.purchase_count(), 0);
}

#[test]
fn checkout_with_session_buys_for_the_session_account() {
    let mut store = showtime_with_seats(10);
    store.register("other@example.com".to_string(), "pw".to_string()).unwrap();
    let a = store.register("a@example.com".to_string(), "pw".to_string()).unwrap();
    store.open_session("tok-1".to_string(), a).unwrap();
    let token = "tok-1".to_string();
    let outcome = store.checkout_with_session(Some(&token), SH1, 7, &good_form(""), 10);
    assert_eq!(outcome, Ok(CheckoutOutcome::Completed(0)));
    assert_eq!(store.purchase(0).unwrap().account, a);
    assert_eq!(store.account_count(), 2);
    let again = store.checkout_with_session(Some(&token), SH1, 7, &good_form(""), 11);
    assert_eq!(again, Ok(CheckoutOutcome::Unavailable));
    let missing = store.checkout_with_session(Some(&token), SH1, 999, &good_form(""), 12);
    assert_eq!(missing, Ok(CheckoutOutcome::SeatNotFound));
    let bad = store.checkout_with_session(Some(&token), SH1, 8, &form("1234", "09/27", "123", ""), 13);
    assert_eq!(
        bad,
        Ok(CheckoutOutcome::Rejected(FieldValidity {
            valid_card_num: false,
            valid_exp: true,
            valid_cvv: true,
            valid_email: true,
        }))
    );
    assert_eq!(store.seat_available(SH1, 8), Some(true));
    assert_eq!(store.purchase_count(), 1);
}
