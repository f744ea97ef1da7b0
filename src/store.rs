//! The reservation store: seats of showtimes, accounts, sessions and
//! purchases, with the transactions that change them. Every transaction
//! either applies in full or leaves the store as it was.
use vstd::prelude::*;

verus! {

/// A seat of a showtime and whether it can still be bought.
#[derive(Clone, Copy, PartialEq, Eq, Structural)]
pub struct SeatRow {
    pub showtime: u64,
    pub number: i32,
    pub available: bool,
}

/// An account; one created at checkout has no password.
pub struct AccountRow {
    pub email: String,
    pub password: Option<String>,
}

/// A live session and the account it belongs to.
pub struct SessionRow {
    pub token: String,
    pub account: usize,
}

/// The card data of a purchase, already checked for shape.
pub struct Payment {
    pub card_number: String,
    pub exp_date: String,
}

/// A completed purchase: an account bought the seat at index `seat`.
pub struct PurchaseRow {
    pub account: usize,
    pub seat: usize,
    /// When the purchase was made, as the caller's clock gave it.
    pub time: u64,
    pub payment: Payment,
}

/// The contents of a store. An account's identifier is its index in
/// `accounts`, a purchase's identifier its index in `purchases`.
pub struct BoxOfficeView {
    pub seats: Seq<SeatRow>,
    pub accounts: Seq<AccountRow>,
    pub sessions: Seq<SessionRow>,
    pub purchases: Seq<PurchaseRow>,
}

/// Why a reservation failed.
#[derive(Debug, Clone, Copy, PartialEq, Eq, Structural)]
pub enum ReserveError {
    /// The showtime has no seat of that number.
    SeatNotFound,
    /// The seat exists but was already bought.
    SeatUnavailable,
    /// The buyer is not an account of the store.
    AccountNotFound,
}

/// Why an account could not be created.
#[derive(Debug, Clone, Copy, PartialEq, Eq, Structural)]
pub enum AccountError {
    /// An account with that email exists already.
    EmailTaken,
}

/// Why a session could not be opened.
#[derive(Debug, Clone, Copy, PartialEq, Eq, Structural)]
pub enum SessionError {
    /// The account does not exist.
    AccountNotFound,
    /// A live session already has that token.
    TokenInUse,
}

/// A request that needs a session came without a valid one.
#[derive(Debug, Clone, Copy, PartialEq, Eq, Structural)]
pub enum GateError {
    Unauthenticated,
}

/// Why a seat could not be added to a showtime.
#[derive(Debug, Clone, Copy, PartialEq, Eq, Structural)]
pub enum CatalogError {
    /// Seat numbers start at 1.
    InvalidNumber,
    /// The showtime already has a seat of that number.
    DuplicateSeat,
}

pub open spec fn seat_matches(row: SeatRow, showtime: u64, number: i32) -> bool {
    row.showtime == showtime && row.number == number
}

/// The showtime has a seat of that number.
pub open spec fn seat_exists(seats: Seq<SeatRow>, showtime: u64, number: i32) -> bool {
    exists|i: int| 0 <= i < seats.len() && #[trigger] seat_matches(seats[i], showtime, number)
}

/// Where the seat of that number stands in `seats`, if it exists.
pub open spec fn seat_index(seats: Seq<SeatRow>, showtime: u64, number: i32) -> int {
    choose|i: int| 0 <= i < seats.len() && #[trigger] seat_matches(seats[i], showtime, number)
}

pub open spec fn account_matches(row: AccountRow, email: Seq<char>) -> bool {
    row.email@ == email
}

/// Some account has this email.
pub open spec fn email_known(accounts: Seq<AccountRow>, email: Seq<char>) -> bool {
    exists|i: int| 0 <= i < accounts.len() && #[trigger] account_matches(accounts[i], email)
}

/// The identifier of the account with this email, if there is one.
pub open spec fn account_index(accounts: Seq<AccountRow>, email: Seq<char>) -> int {
    choose|i: int| 0 <= i < accounts.len() && #[trigger] account_matches(accounts[i], email)
}

pub open spec fn session_matches(row: SessionRow, token: Seq<char>) -> bool {
    row.token@ == token
}

/// Some live session has this token.
pub open spec fn token_known(sessions: Seq<SessionRow>, token: Seq<char>) -> bool {
    exists|i: int| 0 <= i < sessions.len() && #[trigger] session_matches(sessions[i], token)
}

/// Where the session with this token stands, if there is one.
pub open spec fn session_index(sessions: Seq<SessionRow>, token: Seq<char>) -> int {
    choose|i: int| 0 <= i < sessions.len() && #[trigger] session_matches(sessions[i], token)
}

/// The invariant of a store: seat numbers are unique within a showtime,
/// emails and session tokens are unique, every reference points at a row
/// that exists, a bought seat is unavailable, and no seat is bought twice.
pub open spec fn wf(v: BoxOfficeView) -> bool {
    &&& forall|i: int, j: int|
        #![trigger v.seats[i], v.seats[j]]
        0 <= i < v.seats.len() && 0 <= j < v.seats.len() && v.seats[i].showtime
            == v.seats[j].showtime && v.seats[i].number == v.seats[j].number ==> i == j
    &&& forall|i: int, j: int|
        #![trigger v.accounts[i], v.accounts[j]]
        0 <= i < v.accounts.len() && 0 <= j < v.accounts.len() && v.accounts[i].email@
            == v.accounts[j].email@ ==> i == j
    &&& forall|i: int, j: int|
        #![trigger v.sessions[i], v.sessions[j]]
        0 <= i < v.sessions.len() && 0 <= j < v.sessions.len() && v.sessions[i].token@
            == v.sessions[j].token@ ==> i == j
    &&& forall|i: int| 0 <= i < v.sessions.len() ==> #[trigger] v.sessions[i].account < v.accounts.len()
    &&& forall|p: int|
        #![trigger v.purchases[p]]
        0 <= p < v.purchases.len() ==> {
            &&& v.purchases[p].account < v.accounts.len()
            &&& v.purchases[p].seat < v.seats.len()
            &&& !v.seats[v.purchases[p].seat as int].available
        }
    &&& forall|p: int, q: int|
        #![trigger v.purchases[p], v.purchases[q]]
        0 <= p < v.purchases.len() && 0 <= q < v.purchases.len() && v.purchases[p].seat
            == v.purchases[q].seat ==> p == q
}

/// What a reservation of seat `number` of `showtime` for account `buyer`
/// returns: the new purchase's identifier, or why it failed.
pub open spec fn reserve_result(v: BoxOfficeView, showtime: u64, number: i32, buyer: usize) -> Result<usize, ReserveError> {
    if buyer >= v.accounts.len() {
        Err(ReserveError::AccountNotFound)
    } else if !seat_exists(v.seats, showtime, number) {
        Err(ReserveError::SeatNotFound)
    } else if !v.seats[seat_index(v.seats, showtime, number)].available {
        Err(ReserveError::SeatUnavailable)
    } else {
        Ok(v.purchases.len() as usize)
    }
}

/// The store after that reservation: on success the seat is unavailable and
/// one purchase is added; on failure nothing changes.
pub open spec fn after_reserve(v: BoxOfficeView, showtime: u64, number: i32, buyer: usize, time: u64, payment: Payment) -> BoxOfficeView {
    if reserve_result(v, showtime, number, buyer) is Ok {
        let i = seat_index(v.seats, showtime, number);
        BoxOfficeView {
            seats: v.seats.update(i, SeatRow { available: false, ..v.seats[i] }),
            purchases: v.purchases.push(PurchaseRow { account: buyer, seat: i as usize, time, payment }),
            ..v
        }
    } else {
        v
    }
}

/// The account that logs in with this email and password, if any.
pub open spec fn login_result(v: BoxOfficeView, email: Seq<char>, password: Seq<char>) -> Option<usize> {
    if email_known(v.accounts, email) && (v.accounts[account_index(v.accounts, email)].password matches Some(p) && p@ == password) {
        Some(account_index(v.accounts, email) as usize)
    } else {
        None
    }
}

/// The text of a token that may be missing.
pub open spec fn token_view(token: Option<&String>) -> Option<Seq<char>> {
    match token {
        Some(t) => Some(t@),
        None => None,
    }
}

/// What the session gate decides for a request carrying `token`: the
/// session's account, or `Unauthenticated` when there is no token or no live
/// session has it.
pub open spec fn gate_result(v: BoxOfficeView, token: Option<Seq<char>>) -> Result<usize, GateError> {
    match token {
        None => Err(GateError::Unauthenticated),
        Some(t) => if token_known(v.sessions, t) {
            Ok(v.sessions[session_index(v.sessions, t)].account)
        } else {
            Err(GateError::Unauthenticated)
        },
    }
}

/// What a checkout with an email returns: the new purchase's identifier, or
/// why the seat could not be had. The buyer is found or made from the email,
/// so only the seat can fail.
pub open spec fn checkout_result(v: BoxOfficeView, showtime: u64, number: i32) -> Result<usize, ReserveError> {
    if !seat_exists(v.seats, showtime, number) {
        Err(ReserveError::SeatNotFound)
    } else if !v.seats[seat_index(v.seats, showtime, number)].available {
        Err(ReserveError::SeatUnavailable)
    } else {
        Ok(v.purchases.len() as usize)
    }
}

/// The store with an account for `email`: unchanged where one exists, else
/// with a new account without password.
pub open spec fn with_buyer(v: BoxOfficeView, email: String) -> BoxOfficeView {
    if email_known(v.accounts, email@) {
        v
    } else {
        BoxOfficeView { accounts: v.accounts.push(AccountRow { email, password: None }), ..v }
    }
}

/// The identifier of the account for `email` in `with_buyer(v, email)`.
pub open spec fn buyer_of(v: BoxOfficeView, email: Seq<char>) -> usize {
    if email_known(v.accounts, email) {
        account_index(v.accounts, email) as usize
    } else {
        v.accounts.len() as usize
    }
}

/// The store after that checkout: on success the account (found or new),
/// the unavailable seat and the purchase; on failure nothing changes, not
/// even a new account.
pub open spec fn after_checkout(v: BoxOfficeView, showtime: u64, number: i32, email: String, time: u64, payment: Payment) -> BoxOfficeView {
    if checkout_result(v, showtime, number) is Ok {
        after_reserve(with_buyer(v, email), showtime, number, buyer_of(v, email@), time, payment)
    } else {
        v
    }
}

/// The in-memory reservation store.
pub struct BoxOffice {
    seats: Vec<SeatRow>,
    accounts: Vec<AccountRow>,
    sessions: Vec<SessionRow>,
    purchases: Vec<PurchaseRow>,
}

impl View for BoxOffice {
    type V = BoxOfficeView;

    closed spec fn view(&self) -> BoxOfficeView {
        BoxOfficeView {
            seats: self.seats@,
            accounts: self.accounts@,
            sessions: self.sessions@,
            purchases: self.purchases@,
        }
    }
}

impl BoxOffice {
    /// An empty store.
    pub fn new() -> (r: BoxOffice)
        ensures
            wf(r@),
            r@.seats.len() == 0,
            r@.accounts.len() == 0,
            r@.sessions.len() == 0,
            r@.purchases.len() == 0,
    {
        BoxOffice { seats: Vec::new(), accounts: Vec::new(), sessions: Vec::new(), purchases: Vec::new() }
    }

    /// The identifier of the account with this email, if there is one.
    pub fn account_by_email(&self, email: &String) -> (r: Option<usize>)
        requires
            wf(self@),
        ensures
            r is None <==> !email_known(self@.accounts, email@),
            r matches Some(i) ==> i == account_index(self@.accounts, email@),
    {
        let mut i: usize = 0;
        while i < self.accounts.len()
            invariant
                wf(self@),
                i <= self.accounts@.len(),
                forall|k: int| 0 <= k < i ==> !#[trigger] account_matches(self.accounts@[k], email@),
            decreases self.accounts@.len() - i,
        {
            if self.accounts[i].email == *email {
                proof {
                    let v = self@;
                    assert(account_matches(v.accounts[i as int], email@));
                    let j = account_index(v.accounts, email@);
                    assert(account_matches(v.accounts[j], email@));
                }
                return Some(i);
            }
            i = i + 1;
        }
        None
    }

    /// Creates an account with a password; its identifier is returned.
    pub fn register(&mut self, email: String, password: String) -> (r: Result<usize, AccountError>)
        requires
            wf(old(self)@),
        ensures
            wf(final(self)@),
            r is Err <==> email_known(old(self)@.accounts, email@),
            r is Err ==> r == Err::<usize, AccountError>(AccountError::EmailTaken) && final(self)@ == old(self)@,
            r matches Ok(i) ==> {
                &&& i == old(self)@.accounts.len()
                &&& final(self)@ == (BoxOfficeView {
                    accounts: old(self)@.accounts.push((AccountRow { email, password: Some(password) })),
                    ..old(self)@
                })
            },
    {
        if self.account_by_email(&email).is_some() {
            return Err(AccountError::EmailTaken);
        }
        let i = self.accounts.len();
        self.push_account(AccountRow { email, password: Some(password) });
        Ok(i)
    }

    /// Appends an account whose email no account has yet.
    fn push_account(&mut self, row: AccountRow)
        requires
            wf(old(self)@),
            !email_known(old(self)@.accounts, row.email@),
        ensures
            wf(final(self)@),
            final(self)@ == (BoxOfficeView { accounts: old(self)@.accounts.push(row), ..old(self)@ }),
    {
        let ghost pre = self@;
        let ghost e = row.email@;
        self.accounts.push(row);
        proof {
            let v = self@;
            let n = pre.accounts.len() as int;
            assert forall|a: int, b: int|
                #![trigger v.accounts[a], v.accounts[b]]
                0 <= a < v.accounts.len() && 0 <= b < v.accounts.len() && v.accounts[a].email@
                    == v.accounts[b].email@ implies a == b by {
                if a == n && b != n {
                    assert(account_matches(pre.accounts[b], e));
                }
                if b == n && a != n {
                    assert(account_matches(pre.accounts[a], e));
                }
            }
            assert forall|p: int| #![trigger v.purchases[p]] 0 <= p < v.purchases.len() implies {
                &&& v.purchases[p].account < v.accounts.len()
                &&& v.purchases[p].seat < v.seats.len()
                &&& !v.seats[v.purchases[p].seat as int].available
            } by {
                assert(pre.purchases[p] == v.purchases[p]);
            }
            assert forall|i: int| 0 <= i < v.sessions.len() implies #[trigger] v.sessions[i].account < v.accounts.len() by {
                assert(pre.sessions[i] == v.sessions[i]);
            }
        }
    }

    /// The account whose email and password are the ones given; an account
    /// created at checkout has no password and cannot log in.
    pub fn log_in(&self, email: &String, password: &String) -> (r: Option<usize>)
        requires
            wf(self@),
        ensures
            r == login_result(self@, email@, password@),
    {
        match self.account_by_email(email) {
            None => None,
            Some(i) => match &self.accounts[i].password {
                Some(p) => {
                    if *p == *password {
                        Some(i)
                    } else {
                        None
                    }
                },
                None => None,
            },
        }
    }

    /// Opens a session with `token` for `account`.
    pub fn open_session(&mut self, token: String, account: usize) -> (r: Result<(), SessionError>)
        requires
            wf(old(self)@),
        ensures
            wf(final(self)@),
            account >= old(self)@.accounts.len() ==> r == Err::<(), SessionError>(SessionError::AccountNotFound),
            account < old(self)@.accounts.len() && token_known(old(self)@.sessions, token@) ==> r == Err::<(), SessionError>(SessionError::TokenInUse),
            r is Ok <==> account < old(self)@.accounts.len() && !token_known(old(self)@.sessions, token@),
            r is Err ==> final(self)@ == old(self)@,
            r is Ok ==> final(self)@ == (BoxOfficeView {
                sessions: old(self)@.sessions.push((SessionRow { token, account })),
                ..old(self)@
            }),
    {
        if account >= self.accounts.len() {
            return Err(SessionError::AccountNotFound);
        }
        if self.find_session(&token).is_some() {
            return Err(SessionError::TokenInUse);
        }
        let ghost pre = self@;
        let ghost t = token@;
        self.sessions.push(SessionRow { token, account });
        proof {
            let v = self@;
            let n = pre.sessions.len() as int;
            assert forall|a: int, b: int|
                #![trigger v.sessions[a], v.sessions[b]]
                0 <= a < v.sessions.len() && 0 <= b < v.sessions.len() && v.sessions[a].token@
                    == v.sessions[b].token@ implies a == b by {
                if a == n && b != n {
                    assert(session_matches(pre.sessions[b], t));
                }
                if b == n && a != n {
                    assert(session_matches(pre.sessions[a], t));
                }
            }
            assert forall|i: int| 0 <= i < v.sessions.len() implies #[trigger] v.sessions[i].account < v.accounts.len() by {
                if i < n {
                    assert(pre.sessions[i] == v.sessions[i]);
                }
            }
        }
        Ok(())
    }

    /// Where the session with `token` stands, if there is one.
    fn find_session(&self, token: &String) -> (r: Option<usize>)
        requires
            wf(self@),
        ensures
            r is None <==> !token_known(self@.sessions, token@),
            r matches Some(i) ==> i == session_index(self@.sessions, token@),
    {
        let mut i: usize = 0;
        while i < self.sessions.len()
            invariant
                wf(self@),
                i <= self.sessions@.len(),
                forall|k: int| 0 <= k < i ==> !#[trigger] session_matches(self.sessions@[k], token@),
            decreases self.sessions@.len() - i,
        {
            if self.sessions[i].token == *token {
                proof {
                    let v = self@;
                    assert(session_matches(v.sessions[i as int], token@));
                    let j = session_index(v.sessions, token@);
                    assert(session_matches(v.sessions[j], token@));
                }
                return Some(i);
            }
            i = i + 1;
        }
        None
    }

    /// The session gate: the account of the live session with `token`.
    pub fn resolve_session(&self, token: Option<&String>) -> (r: Result<usize, GateError>)
        requires
            wf(self@),
        ensures
            r == gate_result(self@, token_view(token)),
            r matches Ok(a) ==> a < self@.accounts.len(),
    {
        let t = match token {
            None => return Err(GateError::Unauthenticated),
            Some(t) => t,
        };
        match self.find_session(t) {
            None => Err(GateError::Unauthenticated),
            Some(i) => Ok(self.sessions[i].account),
        }
    }

    /// Ends the session with `token`, if there is one.
    pub fn close_session(&mut self, token: &String)
        requires
            wf(old(self)@),
        ensures
            wf(final(self)@),
            !token_known(final(self)@.sessions, token@),
            !token_known(old(self)@.sessions, token@) ==> final(self)@ == old(self)@,
            token_known(old(self)@.sessions, token@) ==> final(self)@ == (BoxOfficeView {
                sessions: old(self)@.sessions.remove(session_index(old(self)@.sessions, token@)),
                ..old(self)@
            }),
    {
        match self.find_session(token) {
            None => {},
            Some(i) => {
                let ghost pre = self@;
                self.sessions.remove(i);
                proof {
                    let v = self@;
                    assert forall|a: int, b: int|
                        #![trigger v.sessions[a], v.sessions[b]]
                        0 <= a < v.sessions.len() && 0 <= b < v.sessions.len() && v.sessions[a].token@
                            == v.sessions[b].token@ implies a == b by {
                        let a0 = if a < i { a } else { a + 1 };
                        let b0 = if b < i { b } else { b + 1 };
                        assert(pre.sessions[a0] == v.sessions[a]);
                        assert(pre.sessions[b0] == v.sessions[b]);
                    }
                    assert forall|a: int| 0 <= a < v.sessions.len() implies #[trigger] v.sessions[a].account < v.accounts.len() by {
                        let a0 = if a < i { a } else { a + 1 };
                        assert(pre.sessions[a0] == v.sessions[a]);
                    }
                    if token_known(v.sessions, token@) {
                        let k = choose|k: int| 0 <= k < v.sessions.len() && #[trigger] session_matches(v.sessions[k], token@);
                        let k0 = if k < i { k } else { k + 1 };
                        assert(pre.sessions[k0] == v.sessions[k]);
                        assert(session_matches(pre.sessions[i as int], token@));
                    }
                }
            },
        }
    }

    /// Buys seat `number` of `showtime` for whoever has `email`, creating an
    /// account for it where none exists. Account creation, the seat's change
    /// and the purchase form one transaction: where the seat cannot be had,
    /// not even the account is created.
    pub fn purchase_by_email(&mut self, showtime: u64, number: i32, email: String, time: u64, payment: Payment) -> (r: Result<usize, ReserveError>)
        requires
            wf(old(self)@),
        ensures
            wf(final(self)@),
            r == checkout_result(old(self)@, showtime, number),
            final(self)@ == after_checkout(old(self)@, showtime, number, email, time, payment),
    {
        let i = match self.find_seat(showtime, number) {
            None => return Err(ReserveError::SeatNotFound),
            Some(i) => i,
        };
        if !self.seats[i].available {
            return Err(ReserveError::SeatUnavailable);
        }
        let ghost pre = self@;
        let ghost e = email;
        let buyer = match self.account_by_email(&email) {
            Some(a) => a,
            None => {
                let a = self.accounts.len();
                self.push_account(AccountRow { email, password: None });
                a
            },
        };
        assert(self@ == with_buyer(pre, e));
        assert(buyer == buyer_of(pre, e@));
        self.reserve_seat(showtime, number, buyer, time, payment)
    }

    /// Whether seat `number` of `showtime` can still be bought; `None` where
    /// the showtime has no such seat.
    pub fn seat_available(&self, showtime: u64, number: i32) -> (r: Option<bool>)
        requires
            wf(self@),
        ensures
            r is None <==> !seat_exists(self@.seats, showtime, number),
            r matches Some(b) ==> b == self@.seats[seat_index(self@.seats, showtime, number)].available,
    {
        match self.find_seat(showtime, number) {
            None => None,
            Some(i) => Some(self.seats[i].available),
        }
    }

    /// The number of purchases made so far.
    pub fn purchase_count(&self) -> (r: usize)
        ensures
            r == self@.purchases.len(),
    {
        self.purchases.len()
    }

    /// The number of accounts.
    pub fn account_count(&self) -> (r: usize)
        ensures
            r == self@.accounts.len(),
    {
        self.accounts.len()
    }

    /// The purchase with identifier `id`, if there is one.
    pub fn purchase(&self, id: usize) -> (r: Option<&PurchaseRow>)
        ensures
            id < self@.purchases.len() ==> r == Some(&self@.purchases[id as int]),
            id >= self@.purchases.len() ==> r is None,
    {
        if id < self.purchases.len() {
            Some(&self.purchases[id])
        } else {
            None
        }
    }

    /// The showtime and number of the seat that purchase `id` bought.
    pub fn purchased_seat(&self, id: usize) -> (r: Option<SeatRow>)
        requires
            wf(self@),
        ensures
            id >= self@.purchases.len() ==> r is None,
            id < self@.purchases.len() ==> r == Some(self@.seats[self@.purchases[id as int].seat as int]),
    {
        if id < self.purchases.len() {
            assert(self@.purchases[id as int].seat < self@.seats.len());
            Some(self.seats[self.purchases[id].seat])
        } else {
            None
        }
    }

    /// How many purchases bought seat `number` of `showtime`.
    pub fn purchases_of_seat(&self, showtime: u64, number: i32) -> (r: usize)
        requires
            wf(self@),
        ensures
            r <= 1,
            r == 1 <==> exists|p: int|
                0 <= p < self@.purchases.len() && #[trigger] seat_matches(
                    self@.seats[self@.purchases[p].seat as int],
                    showtime,
                    number,
                ),
    {
        let mut n: usize = 0;
        let mut k: usize = 0;
        let ghost mut found: int = -1;
        while k < self.purchases.len()
            invariant
                wf(self@),
                k <= self@.purchases.len(),
                n <= 1,
                n == 0 ==> forall|p: int| 0 <= p < k ==> !#[trigger] seat_matches(
                    self@.seats[self@.purchases[p].seat as int],
                    showtime,
                    number,
                ),
                n == 1 ==> 0 <= found < k && seat_matches(
                    self@.seats[self@.purchases[found].seat as int],
                    showtime,
                    number,
                ),
            decreases self@.purchases.len() - k,
        {
            let pk = &self.purchases[k];
            assert(self@.purchases[k as int].seat < self@.seats.len());
            let row = self.seats[pk.seat];
            if row.showtime == showtime && row.number == number {
                proof {
                    if n == 1 {
                        let a = self@.purchases[found].seat as int;
                        let b = self@.purchases[k as int].seat as int;
                        assert(self@.seats[a].showtime == self@.seats[b].showtime);
                        assert(a == b);
                        assert(false);
                    }
                    found = k as int;
                }
                n = 1;
            }
            k = k + 1;
        }
        n
    }

    /// Where the seat `number` of `showtime` stands, if it exists.
    fn find_seat(&self, showtime: u64, number: i32) -> (r: Option<usize>)
        requires
            wf(self@),
        ensures
            r is None <==> !seat_exists(self@.seats, showtime, number),
            r matches Some(i) ==> i == seat_index(self@.seats, showtime, number),
    {
        let mut i: usize = 0;
        while i < self.seats.len()
            invariant
                wf(self@),
                i <= self.seats@.len(),
                forall|k: int| 0 <= k < i ==> !#[trigger] seat_matches(self.seats@[k], showtime, number),
            decreases self.seats@.len() - i,
        {
            if self.seats[i].showtime == showtime && self.seats[i].number == number {
                proof {
                    let v = self@;
                    assert(v.seats == self.seats@);
                    assert(seat_matches(v.seats[i as int], showtime, number));
                    let j = seat_index(v.seats, showtime, number);
                    assert(seat_matches(v.seats[j], showtime, number));
                    assert(v.seats[j].showtime == v.seats[i as int].showtime);
                }
                return Some(i);
            }
            i = i + 1;
        }
        None
    }

    /// Adds an available seat to a showtime; its index is returned.
    pub fn add_seat(&mut self, showtime: u64, number: i32) -> (r: Result<usize, CatalogError>)
        requires
            wf(old(self)@),
        ensures
            wf(final(self)@),
            number < 1 ==> r == Err::<usize, CatalogError>(CatalogError::InvalidNumber),
            number >= 1 && seat_exists(old(self)@.seats, showtime, number) ==> r == Err::<usize, CatalogError>(CatalogError::DuplicateSeat),
            r is Err ==> final(self)@ == old(self)@,
            r is Ok <==> number >= 1 && !seat_exists(old(self)@.seats, showtime, number),
            r matches Ok(i) ==> {
                &&& i == old(self)@.seats.len()
                &&& final(self)@ == (BoxOfficeView {
                    seats: old(self)@.seats.push((SeatRow { showtime, number, available: true })),
                    ..old(self)@
                })
            },
    {
        if number < 1 {
            return Err(CatalogError::InvalidNumber);
        }
        if self.find_seat(showtime, number).is_some() {
            return Err(CatalogError::DuplicateSeat);
        }
        let i = self.seats.len();
        self.seats.push(SeatRow { showtime, number, available: true });
        proof {
            let v = self@;
            assert forall|a: int, b: int|
                0 <= a < v.seats.len() && 0 <= b < v.seats.len() && v.seats[a].showtime
                    == v.seats[b].showtime && v.seats[a].number == v.seats[b].number implies a == b by {
                if a == i && b != i {
                    assert(seat_matches(old(self)@.seats[b], showtime, number));
                }
                if b == i && a != i {
                    assert(seat_matches(old(self)@.seats[a], showtime, number));
                }
            }
        }
        Ok(i)
    }

    /// Reserves seat `number` of `showtime` for account `buyer` as one
    /// transaction: the seat turns unavailable and the purchase is recorded
    /// together, or nothing changes.
    pub fn reserve_seat(&mut self, showtime: u64, number: i32, buyer: usize, time: u64, payment: Payment) -> (r: Result<usize, ReserveError>)
        requires
            wf(old(self)@),
        ensures
            wf(final(self)@),
            r == reserve_result(old(self)@, showtime, number, buyer),
            final(self)@ == after_reserve(old(self)@, showtime, number, buyer, time, payment),
    {
        if buyer >= self.accounts.len() {
            return Err(ReserveError::AccountNotFound);
        }
        let i = match self.find_seat(showtime, number) {
            None => return Err(ReserveError::SeatNotFound),
            Some(i) => i,
        };
        if !self.seats[i].available {
            return Err(ReserveError::SeatUnavailable);
        }
        let ghost pre = self@;
        let row = SeatRow { available: false, ..self.seats[i] };
        self.seats.set(i, row);
        let id = self.purchases.len();
        self.purchases.push(PurchaseRow { account: buyer, seat: i, time, payment });
        proof {
            let v = self@;
            assert(v == after_reserve(pre, showtime, number, buyer, time, payment));
            assert forall|p: int, q: int|
                0 <= p < v.purchases.len() && 0 <= q < v.purchases.len() && v.purchases[p].seat
                    == v.purchases[q].seat implies p == q by {
                if p < q && q == id {
                    let pp = pre.purchases[p];
                    assert(!pre.seats[pp.seat as int].available);
                }
                if q < p && p == id {
                    let pq = pre.purchases[q];
                    assert(!pre.seats[pq.seat as int].available);
                }
            }
            assert forall|p: int| #![trigger v.purchases[p]] 0 <= p < v.purchases.len() implies {
                &&& v.purchases[p].account < v.accounts.len()
                &&& v.purchases[p].seat < v.seats.len()
                &&& !v.seats[v.purchases[p].seat as int].available
            } by {
                if p < id {
                    assert(pre.purchases[p] == v.purchases[p]);
                }
            }
        }
        Ok(id)
    }
}

} // verus!
