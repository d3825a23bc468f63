//! The bodies and query parameters of the requests.

use vstd::prelude::*;

verus! {

/// Sign-in with email and password.
#[derive(Clone, Debug, PartialEq, Eq)]
pub struct SignIn {
    pub email: String,
    pub password: String,
}

/// Sign-up.
#[derive(Clone, Debug, PartialEq, Eq)]
pub struct CreateCustomerRecord {
    pub name: String,
    pub email: String,
    pub password: String,
    pub password_confirmation: String,
    pub class: String,
    pub accepted_terms: bool,
    pub provider: String,
}

/// A new name.
#[derive(Clone, Debug, PartialEq, Eq)]
pub struct CustomerUpdateName {
    pub name: String,
}

/// A new password, with the old one.
#[derive(Clone, Debug, PartialEq, Eq)]
pub struct CustomerUpdatePassword {
    pub old_password: String,
    pub new_password: String,
    pub new_password_confirmation: String,
}

/// One more email address.
#[derive(Clone, Debug, PartialEq, Eq)]
pub struct CustomerAddEmail {
    pub email: String,
}

/// The customer to fetch.
#[derive(Clone, Debug, PartialEq, Eq)]
pub struct FetchCustomerByID {
    pub id: Option<String>,
}

/// The token of an email verification.
#[derive(Clone, Debug, PartialEq, Eq)]
pub struct VerifyEmailQueryParams {
    pub token: Option<String>,
}

} // verus!
