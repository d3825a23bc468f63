//! What Google answers during sign-in.

use vstd::prelude::*;

verus! {

/// The tokens Google gives for an authorization code.
#[derive(Clone, Debug, PartialEq, Eq)]
pub struct OAuthResponse {
    pub access_token: String,
    pub id_token: String,
}

/// The user Google describes for a token.
#[derive(Clone, Debug, PartialEq, Eq)]
pub struct GoogleUserResult {
    pub id: Option<String>,
    pub email: Option<String>,
    pub verified_email: Option<bool>,
    pub name: Option<String>,
    pub given_name: Option<String>,
    pub family_name: Option<String>,
    pub picture: Option<String>,
    pub locale: Option<String>,
}

/// The query parameters of Google's redirect.
#[derive(Clone, Debug, PartialEq, Eq)]
pub struct GoogleOAuthQueryParams {
    pub code: Option<String>,
    pub error: Option<String>,
}

} // verus!
