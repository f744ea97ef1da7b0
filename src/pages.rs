//! The models of the account and landing pages.
use vstd::prelude::*;
use crate::validation::{email_shape, is_valid_email, is_valid_password};

verus! {

/// The fields of the login and sign-up forms.
pub struct Account {
    pub email: String,
    pub password: String,
}

/// The login page: the fields as entered, whether the email has the right
/// shape, and whether an account matched.
pub struct Login {
    pub email: String,
    pub password: String,
    pub valid_email: bool,
    pub account_found: bool,
}

/// The sign-up page: the email as entered, the checks of both fields, and
/// whether an account with that email exists already.
pub struct SignUp {
    pub email: String,
    pub valid_email: bool,
    pub account_found: bool,
    pub valid_password: bool,
}

impl Login {
    /// An empty login form with nothing flagged.
    pub fn blank() -> (r: Login)
        ensures
            r.email@.len() == 0,
            r.password@.len() == 0,
            r.valid_email,
            r.account_found,
    {
        Login { email: String::new(), password: String::new(), valid_email: true, account_found: true }
    }

    /// The login form after checking the email's shape: `None` when the
    /// email may be looked up, else the form flagged for its email.
    pub fn check(form: &Account) -> (r: Option<Login>)
        ensures
            r is None <==> email_shape(form.email@),
            r matches Some(page) ==> {
                &&& page.email == form.email
                &&& page.password == form.password
                &&& !page.valid_email
                &&& page.account_found
            },
    {
        if is_valid_email(&form.email) {
            None
        } else {
            Some(
                Login {
                    email: form.email.clone(),
                    password: form.password.clone(),
                    valid_email: false,
                    account_found: true,
                },
            )
        }
    }

    /// The login form when no account has that email and password.
    pub fn not_found(form: Account) -> (r: Login)
        ensures
            r.email == form.email,
            r.password == form.password,
            r.valid_email,
            !r.account_found,
    {
        Login { email: form.email, password: form.password, valid_email: true, account_found: false }
    }
}

impl SignUp {
    /// An empty sign-up form with nothing flagged.
    pub fn blank() -> (r: SignUp)
        ensures
            r.email@.len() == 0,
            r.valid_email,
            r.valid_password,
            !r.account_found,
    {
        SignUp { email: String::new(), valid_email: true, valid_password: true, account_found: false }
    }

    /// The sign-up form after checking both fields: `None` when both pass
    /// and the account may be created, else the form with the flags.
    pub fn check(form: &Account) -> (r: Option<SignUp>)
        ensures
            r is None <==> email_shape(form.email@) && form.password@.len() > 0,
            r matches Some(page) ==> {
                &&& page.email == form.email
                &&& page.valid_email == email_shape(form.email@)
                &&& page.valid_password == (form.password@.len() > 0)
                &&& !page.account_found
            },
    {
        let valid_email = is_valid_email(&form.email);
        let valid_password = is_valid_password(&form.password);
        if valid_email && valid_password {
            None
        } else {
            Some(SignUp { email: form.email.clone(), valid_email, valid_password, account_found: false })
        }
    }

    /// The sign-up form when an account with that email exists already.
    pub fn taken(email: String) -> (r: SignUp)
        ensures
            r.email == email,
            r.valid_email,
            r.valid_password,
            r.account_found,
    {
        SignUp { email, valid_email: true, valid_password: true, account_found: true }
    }
}

/// The landing page; it offers logging out to a visitor with a session.
pub struct Index {
    pub logged_in: bool,
}

pub struct ContactPage {}

pub struct AboutPage {}

pub struct Footer {}

/// A page under construction.
pub struct Temp {}

/// A person in a movie's cast and the part they play.
pub struct Actor {
    pub name: String,
    pub role: String,
}

} // verus!
