//! The purchase flow: the checkout form, its field checks, and the checkout
//! transaction that only runs on a form whose fields all pass.
use vstd::prelude::*;
use crate::store::{
    after_checkout, after_reserve, checkout_result, gate_result, reserve_result, token_view, wf,
    BoxOffice, BoxOfficeView, GateError, Payment, ReserveError,
};
use crate::validation::{
    card_number_shape, cvv_shape, email_shape, expiry_shape, is_valid_card_number, is_valid_cvv,
    is_valid_email, is_valid_exp,
};

verus! {

/// The fields of the checkout form.
pub struct UserInfo {
    pub card_num: String,
    pub exp_date: String,
    pub cvv: String,
    pub email: String,
}

/// Which fields of a checkout form have the required shape.
#[derive(Debug, Clone, Copy, PartialEq, Eq, Structural)]
pub struct FieldValidity {
    pub valid_card_num: bool,
    pub valid_exp: bool,
    pub valid_cvv: bool,
    pub valid_email: bool,
}

/// The checks of each field of `form`.
pub open spec fn validity_of(form: UserInfo) -> FieldValidity {
    FieldValidity {
        valid_card_num: card_number_shape(form.card_num@),
        valid_exp: expiry_shape(form.exp_date@),
        valid_cvv: cvv_shape(form.cvv@),
        valid_email: email_shape(form.email@),
    }
}

/// Every field passed.
pub open spec fn all_valid(f: FieldValidity) -> bool {
    f.valid_card_num && f.valid_exp && f.valid_cvv && f.valid_email
}

/// Checks each field of a checkout form.
pub fn check_form(form: &UserInfo) -> (r: FieldValidity)
    ensures
        r == validity_of(*form),
{
    FieldValidity {
        valid_card_num: is_valid_card_number(&form.card_num),
        valid_exp: is_valid_exp(&form.exp_date),
        valid_cvv: is_valid_cvv(&form.cvv),
        valid_email: is_valid_email(&form.email),
    }
}

impl FieldValidity {
    pub fn all_valid(&self) -> (r: bool)
        ensures
            r == all_valid(*self),
    {
        self.valid_card_num && self.valid_exp && self.valid_cvv && self.valid_email
    }
}

/// How a checkout ended.
#[derive(Debug, Clone, Copy, PartialEq, Eq, Structural)]
pub enum CheckoutOutcome {
    /// Some field failed its check; the flags say which. Nothing was stored.
    Rejected(FieldValidity),
    /// The seat was bought; the purchase has this identifier.
    Completed(usize),
    /// Someone else bought the seat first.
    Unavailable,
    /// The showtime has no seat of that number.
    SeatNotFound,
}

/// How a checkout of `form` for seat `number` of `showtime` ends.
pub open spec fn checkout_outcome(v: BoxOfficeView, showtime: u64, number: i32, form: UserInfo) -> CheckoutOutcome {
    let f = validity_of(form);
    if !all_valid(f) {
        CheckoutOutcome::Rejected(f)
    } else {
        match checkout_result(v, showtime, number) {
            Ok(id) => CheckoutOutcome::Completed(id),
            Err(ReserveError::SeatUnavailable) => CheckoutOutcome::Unavailable,
            Err(_) => CheckoutOutcome::SeatNotFound,
        }
    }
}

/// The card data a form carries into its purchase.
pub open spec fn payment_of(form: UserInfo) -> Payment {
    Payment { card_number: form.card_num, exp_date: form.exp_date }
}

/// The store after that checkout.
pub open spec fn after_checkout_form(v: BoxOfficeView, showtime: u64, number: i32, form: UserInfo, time: u64) -> BoxOfficeView {
    if all_valid(validity_of(form)) {
        after_checkout(v, showtime, number, form.email, time, payment_of(form))
    } else {
        v
    }
}

impl BoxOffice {
    /// Completes a purchase from the checkout form: checks the fields, then
    /// buys the seat for the form's email as one transaction.
    pub fn checkout(&mut self, showtime: u64, number: i32, form: &UserInfo, time: u64) -> (r: CheckoutOutcome)
        requires
            wf(old(self)@),
        ensures
            wf(final(self)@),
            r == checkout_outcome(old(self)@, showtime, number, *form),
            final(self)@ == after_checkout_form(old(self)@, showtime, number, *form, time),
    {
        let validity = check_form(form);
        if !validity.all_valid() {
            return CheckoutOutcome::Rejected(validity);
        }
        let payment = Payment { card_number: form.card_num.clone(), exp_date: form.exp_date.clone() };
        match self.purchase_by_email(showtime, number, form.email.clone(), time, payment) {
            Ok(id) => CheckoutOutcome::Completed(id),
            Err(ReserveError::SeatUnavailable) => CheckoutOutcome::Unavailable,
            Err(_) => CheckoutOutcome::SeatNotFound,
        }
    }
}

/// The checks of the card fields of `form`; the email is not asked for
/// when a session names the buyer, so it is never flagged.
pub open spec fn card_validity_of(form: UserInfo) -> FieldValidity {
    FieldValidity { valid_email: true, ..validity_of(form) }
}

/// How a checkout by account `buyer` of `form` for seat `number` of
/// `showtime` ends.
pub open spec fn account_checkout_outcome(v: BoxOfficeView, showtime: u64, number: i32, buyer: usize, form: UserInfo) -> CheckoutOutcome {
    let f = card_validity_of(form);
    if !all_valid(f) {
        CheckoutOutcome::Rejected(f)
    } else {
        match reserve_result(v, showtime, number, buyer) {
            Ok(id) => CheckoutOutcome::Completed(id),
            Err(ReserveError::SeatUnavailable) => CheckoutOutcome::Unavailable,
            Err(_) => CheckoutOutcome::SeatNotFound,
        }
    }
}

/// What a checkout behind the session gate returns: `Unauthenticated`
/// without a live session, else the outcome of a checkout by the session's
/// account.
pub open spec fn session_checkout_result(v: BoxOfficeView, token: Option<Seq<char>>, showtime: u64, number: i32, form: UserInfo) -> Result<CheckoutOutcome, GateError> {
    match gate_result(v, token) {
        Err(e) => Err(e),
        Ok(buyer) => Ok(account_checkout_outcome(v, showtime, number, buyer, form)),
    }
}

/// The store after that checkout: changed only where a live session's
/// account bought the seat.
pub open spec fn after_session_checkout(v: BoxOfficeView, token: Option<Seq<char>>, showtime: u64, number: i32, form: UserInfo, time: u64) -> BoxOfficeView {
    match gate_result(v, token) {
        Ok(buyer) => if all_valid(card_validity_of(form)) {
            after_reserve(v, showtime, number, buyer, time, payment_of(form))
        } else {
            v
        },
        Err(_) => v,
    }
}

impl BoxOffice {
    /// Completes a purchase for the account of a live session: without one
    /// the request is refused and nothing changes; with one the card fields
    /// are checked and the seat is bought for that account as one
    /// transaction. No account is ever created here.
    pub fn checkout_with_session(&mut self, token: Option<&String>, showtime: u64, number: i32, form: &UserInfo, time: u64) -> (r: Result<CheckoutOutcome, GateError>)
        requires
            wf(old(self)@),
        ensures
            wf(final(self)@),
            r == session_checkout_result(old(self)@, token_view(token), showtime, number, *form),
            final(self)@ == after_session_checkout(old(self)@, token_view(token), showtime, number, *form, time),
    {
        let buyer = match self.resolve_session(token) {
            Err(e) => return Err(e),
            Ok(a) => a,
        };
        let checked = check_form(form);
        let validity = FieldValidity { valid_email: true, ..checked };
        if !validity.all_valid() {
            return Ok(CheckoutOutcome::Rejected(validity));
        }
        let payment = Payment { card_number: form.card_num.clone(), exp_date: form.exp_date.clone() };
        match self.reserve_seat(showtime, number, buyer, time, payment) {
            Ok(id) => Ok(CheckoutOutcome::Completed(id)),
            Err(ReserveError::SeatUnavailable) => Ok(CheckoutOutcome::Unavailable),
            Err(_) => Ok(CheckoutOutcome::SeatNotFound),
        }
    }
}

/// The checkout page of a seat, with the fields as entered and a flag per
/// field that says whether it passed.
pub struct PurchasePage {
    pub id: String,
    pub time: String,
    pub seat: i32,
    pub movie: String,
    pub card_num: String,
    pub exp_date: String,
    pub cvv: String,
    pub email: String,
    pub valid_card_num: bool,
    pub valid_exp: bool,
    pub valid_cvv: bool,
    pub valid_email: bool,
}

impl PurchasePage {
    /// An empty form for a seat, with no field flagged.
    pub fn new(id: String, time: String, seat: i32, movie: String) -> (r: PurchasePage)
        ensures
            r.id == id,
            r.time == time,
            r.seat == seat,
            r.movie == movie,
            r.card_num@.len() == 0,
            r.exp_date@.len() == 0,
            r.cvv@.len() == 0,
            r.email@.len() == 0,
            r.valid_card_num && r.valid_exp && r.valid_cvv && r.valid_email,
    {
        PurchasePage {
            id,
            time,
            seat,
            movie,
            card_num: String::new(),
            exp_date: String::new(),
            cvv: String::new(),
            email: String::new(),
            valid_card_num: true,
            valid_cvv: true,
            valid_exp: true,
            valid_email: true,
        }
    }

    /// The form shown again after a rejected checkout: the fields as
    /// entered, each with the outcome of its check.
    pub fn rejected(id: String, time: String, seat: i32, movie: String, form: UserInfo, validity: FieldValidity) -> (r: PurchasePage)
        ensures
            r.id == id,
            r.time == time,
            r.seat == seat,
            r.movie == movie,
            r.card_num == form.card_num,
            r.exp_date == form.exp_date,
            r.cvv == form.cvv,
            r.email == form.email,
            r.valid_card_num == validity.valid_card_num,
            r.valid_exp == validity.valid_exp,
            r.valid_cvv == validity.valid_cvv,
            r.valid_email == validity.valid_email,
    {
        PurchasePage {
            id,
            time,
            seat,
            movie,
            card_num: form.card_num,
            exp_date: form.exp_date,
            cvv: form.cvv,
            email: form.email,
            valid_card_num: validity.valid_card_num,
            valid_exp: validity.valid_exp,
            valid_cvv: validity.valid_cvv,
            valid_email: validity.valid_email,
        }
    }
}

/// The page that says the seat was bought by someone else.
pub struct Unavailable {}

/// The confirmation of a completed purchase, with its ticket.
pub struct Complete {
    pub movie: String,
    pub time: String,
    pub seat: i32,
    /// The purchase identifier the ticket encodes.
    pub ticket: String,
    pub svg: String,
}

} // verus!
