//! Properties of the store that hold across transactions.
use vstd::prelude::*;
use crate::purchase::{
    after_checkout_form, after_session_checkout, all_valid, checkout_outcome,
    session_checkout_result, validity_of, CheckoutOutcome, UserInfo,
};
use crate::store::{
    after_checkout, after_reserve, buyer_of, checkout_result, email_known, gate_result,
    reserve_result, seat_exists, seat_index, seat_matches, wf, with_buyer, BoxOfficeView,
    GateError, Payment, ReserveError, SeatRow,
};

verus! {

/// No seat is bought twice: in a store that keeps its invariant, which every
/// transaction of the store keeps, two purchases of one seat are the same
/// purchase.
pub proof fn lemma_one_purchase_per_seat(v: BoxOfficeView, p: int, q: int)
    requires
        wf(v),
        0 <= p < v.purchases.len(),
        0 <= q < v.purchases.len(),
        v.purchases[p].seat == v.purchases[q].seat,
    ensures
        p == q,
{
}

/// Changing a seat's availability keeps where each seat stands.
proof fn lemma_index_after_update(seats: Seq<SeatRow>, showtime: u64, number: i32, i: int, available: bool)
    requires
        forall|a: int, b: int|
            #![trigger seats[a], seats[b]]
            0 <= a < seats.len() && 0 <= b < seats.len() && seats[a].showtime == seats[b].showtime
                && seats[a].number == seats[b].number ==> a == b,
        seat_exists(seats, showtime, number),
        i == seat_index(seats, showtime, number),
    ensures
        seat_exists(seats.update(i, SeatRow { available, ..seats[i] }), showtime, number),
        seat_index(seats.update(i, SeatRow { available, ..seats[i] }), showtime, number) == i,
{
    let s2 = seats.update(i, SeatRow { available, ..seats[i] });
    assert(seat_matches(seats[i], showtime, number));
    assert(seat_matches(s2[i], showtime, number));
    let j = seat_index(s2, showtime, number);
    assert(seat_matches(s2[j], showtime, number));
    assert(seats[j].showtime == seats[i].showtime && seats[j].number == seats[i].number);
}

/// Of two reservations of one available seat, served one after the other,
/// the first succeeds and the second fails with `SeatUnavailable` and
/// changes nothing; the seat is then bought exactly once.
pub proof fn lemma_second_reservation_fails(
    v: BoxOfficeView,
    showtime: u64,
    number: i32,
    first: usize,
    second: usize,
    t1: u64,
    t2: u64,
    pay1: Payment,
    pay2: Payment,
)
    requires
        wf(v),
        v.seats.len() <= usize::MAX,
        v.purchases.len() <= usize::MAX,
        first < v.accounts.len(),
        second < v.accounts.len(),
        seat_exists(v.seats, showtime, number),
        v.seats[seat_index(v.seats, showtime, number)].available,
    ensures
        reserve_result(v, showtime, number, first) == Ok::<usize, ReserveError>(v.purchases.len() as usize),
        ({
            let v1 = after_reserve(v, showtime, number, first, t1, pay1);
            let i = seat_index(v.seats, showtime, number);
            &&& reserve_result(v1, showtime, number, second) == Err::<usize, ReserveError>(ReserveError::SeatUnavailable)
            &&& after_reserve(v1, showtime, number, second, t2, pay2) == v1
            &&& v1.purchases[v.purchases.len() as int].seat == i
            &&& forall|q: int| 0 <= q < v1.purchases.len() && v1.purchases[q].seat == i ==> q == v.purchases.len()
        }),
{
    let i = seat_index(v.seats, showtime, number);
    let v1 = after_reserve(v, showtime, number, first, t1, pay1);
    lemma_index_after_update(v.seats, showtime, number, i, false);
    assert forall|q: int| 0 <= q < v1.purchases.len() && v1.purchases[q].seat == i implies q == v.purchases.len() by {
        if q < v.purchases.len() {
            assert(v1.purchases[q] == v.purchases[q]);
            assert(!v.seats[v.purchases[q].seat as int].available);
        }
    }
}

/// Of two checkouts of one available seat, served one after the other, the
/// first completes and the second finds the seat unavailable and changes
/// nothing, not even an account; the seat is then bought exactly once.
pub proof fn lemma_second_checkout_fails(
    v: BoxOfficeView,
    showtime: u64,
    number: i32,
    email1: String,
    email2: String,
    t1: u64,
    t2: u64,
    pay1: Payment,
    pay2: Payment,
)
    requires
        wf(v),
        v.seats.len() <= usize::MAX,
        v.purchases.len() <= usize::MAX,
        seat_exists(v.seats, showtime, number),
        v.seats[seat_index(v.seats, showtime, number)].available,
    ensures
        checkout_result(v, showtime, number) == Ok::<usize, ReserveError>(v.purchases.len() as usize),
        ({
            let v1 = after_checkout(v, showtime, number, email1, t1, pay1);
            let i = seat_index(v.seats, showtime, number);
            &&& checkout_result(v1, showtime, number) == Err::<usize, ReserveError>(ReserveError::SeatUnavailable)
            &&& after_checkout(v1, showtime, number, email2, t2, pay2) == v1
            &&& v1.purchases[v.purchases.len() as int].seat == i
            &&& forall|q: int| 0 <= q < v1.purchases.len() && v1.purchases[q].seat == i ==> q == v.purchases.len()
        }),
{
    let i = seat_index(v.seats, showtime, number);
    let w = with_buyer(v, email1);
    let b = buyer_of(v, email1@);
    if email_known(v.accounts, email1@) {
        let k = choose|k: int| 0 <= k < v.accounts.len() && #[trigger] crate::store::account_matches(v.accounts[k], email1@);
    }
    assert(b < w.accounts.len());
    assert(reserve_result(w, showtime, number, b) is Ok);
    let v1 = after_checkout(v, showtime, number, email1, t1, pay1);
    assert(v1 == after_reserve(w, showtime, number, b, t1, pay1));
    lemma_index_after_update(v.seats, showtime, number, i, false);
    assert forall|q: int| 0 <= q < v1.purchases.len() && v1.purchases[q].seat == i implies q == v.purchases.len() by {
        if q < v.purchases.len() {
            assert(v1.purchases[q] == v.purchases[q]);
            assert(!v.seats[v.purchases[q].seat as int].available);
        }
    }
}

/// A reservation that fails leaves the store as it was: no seat changes
/// its availability and no purchase is added.
pub proof fn lemma_failed_reservation_changes_nothing(
    v: BoxOfficeView,
    showtime: u64,
    number: i32,
    buyer: usize,
    time: u64,
    payment: Payment,
)
    requires
        reserve_result(v, showtime, number, buyer) is Err,
    ensures
        after_reserve(v, showtime, number, buyer, time, payment) == v,
{
}

/// A checkout that does not complete, for whatever reason, leaves the store
/// as it was: no seat, purchase or account changes.
pub proof fn lemma_failed_checkout_changes_nothing(v: BoxOfficeView, showtime: u64, number: i32, form: UserInfo, time: u64)
    requires
        !(checkout_outcome(v, showtime, number, form) is Completed),
    ensures
        after_checkout_form(v, showtime, number, form, time) == v,
{
}

/// A checkout form with a field of the wrong shape is rejected with the
/// flags of its fields, and the store is left as it was.
pub proof fn lemma_invalid_form_is_rejected(v: BoxOfficeView, showtime: u64, number: i32, form: UserInfo, time: u64)
    requires
        !all_valid(validity_of(form)),
    ensures
        checkout_outcome(v, showtime, number, form) == CheckoutOutcome::Rejected(validity_of(form)),
        after_checkout_form(v, showtime, number, form, time) == v,
{
}

/// A checkout behind the session gate without a live session (no token, or
/// one that no session has) is refused as unauthenticated and reserves
/// nothing: the store is left as it was.
pub proof fn lemma_no_session_no_reservation(
    v: BoxOfficeView,
    token: Option<Seq<char>>,
    showtime: u64,
    number: i32,
    form: UserInfo,
    time: u64,
)
    requires
        gate_result(v, token) is Err,
    ensures
        session_checkout_result(v, token, showtime, number, form) == Err::<CheckoutOutcome, GateError>(GateError::Unauthenticated),
        after_session_checkout(v, token, showtime, number, form, time) == v,
{
}

} // verus!
