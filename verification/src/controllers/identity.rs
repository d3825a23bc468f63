//! Sessions: who a request speaks for, and how a session is begun.
//!
//! A session is valid only if the token verifies, the session store still
//! holds it, and both name the same customer.

use vstd::prelude::*;
use crate::controllers::scopes::{
    grants,
    is_granted,
    SessionData,
    SessionDataView,
    SessionScopes,
};
use crate::oauth::google::{GoogleOAuthQueryParams, GoogleUserResult};
use crate::storage::{
    build_customer_filter,
    CustomerFilter,
    SessionWrite,
    StorageError,
    StoreRead,
    StoreWrite,
};
use crate::text::{lowercase, same_text, to_lowercase};
use crate::types::customer::{AuthProviders, Customer};
use crate::types::incoming_requests::SignIn;
use crate::types::response::{
    failure,
    refusal,
    reply_view,
    success,
    GenericResponse,
    GenericResponseView,
    GoogleProfile,
    GoogleProfileView,
    HeaderValue,
    HttpStatus,
    Reply,
    ReplyView,
    ResponseData,
    ResponseDataView,
};
use crate::utilities::api_messages::{
    APIMessages,
    CustomerMessages,
    EmailMessages,
    RedisMessages,
    TokenMessages,
};
use crate::utilities::helpers::{
    is_match,
    matches_pattern,
    refuse,
    refuse_with,
    sign_in_email_pattern,
};
use crate::utilities::password::{bcrypt_verifies, verify_password};
use crate::utilities::token::{
    create_token,
    extract_token_from_headers,
    is_issued_token,
    lemma_issued_token_verifies,
    lemma_scopes_round_trip,
    missing_token_reply,
    parsed_scopes,
    string_to_scopes,
    validate_token,
    verified_claims,
};

verus! {

/// The seconds a session lives in the session store.
pub const SESSION_TTL: u64 = 604800;

/// The message for a token that did not verify.
pub open spec fn unauthorized_because(reason: Seq<char>) -> Seq<char> {
    "unauthorized: "@ + reason
}

/// The session a request speaks for, or the answer to a request that speaks
/// for none.
pub open spec fn session_outcome(
    authorization: HeaderValue,
    stored: StoreRead,
    key: Seq<u8>,
    now: u64,
) -> Result<SessionDataView, ReplyView> {
    match authorization {
        HeaderValue::Text(token) => match verified_claims(token@, key, now) {
            Err(e) => Err(refusal(HttpStatus::UNAUTHORIZED, unauthorized_because(e.text()))),
            Ok(claims) => match stored {
                StoreRead::Unreachable => Err(
                    refusal(
                        HttpStatus::INTERNAL_SERVER_ERROR,
                        RedisMessages::FailedToConnect.text(),
                    ),
                ),
                StoreRead::Failed => Err(
                    refusal(HttpStatus::INTERNAL_SERVER_ERROR, RedisMessages::ErrorFetching.text()),
                ),
                StoreRead::Missing => Err(refusal(HttpStatus::UNAUTHORIZED, "unauthorized"@)),
                StoreRead::Found(id) => if id@ != claims.sub {
                    Err(refusal(HttpStatus::UNAUTHORIZED, "unauthorized"@))
                } else {
                    match parsed_scopes(claims.aud) {
                        None => Err(refusal(HttpStatus::UNAUTHORIZED, "unauthorized"@)),
                        Some(scopes) => Ok(SessionDataView { customer_id: id@, scopes }),
                    }
                },
            },
        },
        _ => Err(
            refusal(missing_token_reply(authorization).0, missing_token_reply(authorization).1),
        ),
    }
}

/// The view of a result that holds a session.
pub open spec fn session_result_view(r: Result<SessionData, Reply>) -> Result<
    SessionDataView,
    ReplyView,
> {
    match r {
        Ok(session) => Ok(session@),
        Err(reply) => Err(reply_view(reply)),
    }
}

/// Resolves the session of a request from its `Authorization` header and
/// from what the session store holds under the header's token.
///
/// The token must verify at `now`; a token that does not is answered with
/// status 401. A token that the store no longer holds is answered with 401
/// too, a store that failed with 500. The customer the store names must be
/// the token's subject, and the token's audience must name scopes.
pub fn get_user_session_from_req(
    authorization: &HeaderValue,
    stored: &StoreRead,
    signing_key: &[u8],
    now: u64,
) -> (r: Result<SessionData, Reply>)
    ensures
        session_result_view(r) == session_outcome(*authorization, *stored, signing_key@, now),
{
    let token = extract_token_from_headers(authorization)?;
    let claims = match validate_token(token, signing_key, now) {
        Ok(claims) => claims,
        Err(e) => {
            let mut message = "unauthorized: ".to_string();
            message.append(e.to_string().as_str());
            return Err((HttpStatus::UNAUTHORIZED, GenericResponse::failure(message)));
        },
    };
    let customer_id = match stored {
        StoreRead::Unreachable => {
            return Err(
                refuse(
                    HttpStatus::INTERNAL_SERVER_ERROR,
                    APIMessages::Redis(RedisMessages::FailedToConnect),
                ),
            );
        },
        StoreRead::Failed => {
            return Err(
                refuse(
                    HttpStatus::INTERNAL_SERVER_ERROR,
                    APIMessages::Redis(RedisMessages::ErrorFetching),
                ),
            );
        },
        StoreRead::Missing => {
            return Err(refuse_with(HttpStatus::UNAUTHORIZED, "unauthorized"));
        },
        StoreRead::Found(id) => id,
    };
    if !same_text(customer_id.as_str(), claims.sub.as_str()) {
        return Err(refuse_with(HttpStatus::UNAUTHORIZED, "unauthorized"));
    }
    let scopes = match string_to_scopes(claims.aud) {
        Ok(scopes) => scopes,
        Err(_) => {
            return Err(refuse_with(HttpStatus::UNAUTHORIZED, "unauthorized"));
        },
    };
    Ok(SessionData { customer_id: customer_id.clone(), scopes })
}

/// The session a request speaks for, if it opens an endpoint that asks for
/// the required scopes; the answer to the request otherwise.
pub open spec fn admission(
    authorization: HeaderValue,
    stored: StoreRead,
    key: Seq<u8>,
    now: u64,
    required: Seq<SessionScopes>,
) -> Result<SessionDataView, ReplyView> {
    match session_outcome(authorization, stored, key, now) {
        Err(reply) => Err(reply),
        Ok(session) => if grants(session.scopes, required) {
            Ok(session)
        } else {
            Err(
                refusal(
                    HttpStatus::UNAUTHORIZED,
                    TokenMessages::NotAllowedScopesToPerformAction.text(),
                ),
            )
        },
    }
}

/// Admits a request to an endpoint that asks for the required scopes: the
/// request must have a valid session, and the session must hold every
/// required scope or total access.
pub fn identity_middleware(
    authorization: &HeaderValue,
    stored: &StoreRead,
    signing_key: &[u8],
    now: u64,
    required: &Vec<SessionScopes>,
) -> (r: Result<SessionData, Reply>)
    ensures
        session_result_view(r) == admission(
            *authorization,
            *stored,
            signing_key@,
            now,
            required@,
        ),
{
    let session = get_user_session_from_req(authorization, stored, signing_key, now)?;
    if !is_granted(&session.scopes, required) {
        return Err(
            refuse(
                HttpStatus::UNAUTHORIZED,
                APIMessages::Token(TokenMessages::NotAllowedScopesToPerformAction),
            ),
        );
    }
    Ok(session)
}

/// The answer to the question whose session a request is.
pub open spec fn session_reply(
    authorization: HeaderValue,
    stored: StoreRead,
    key: Seq<u8>,
    now: u64,
) -> ReplyView {
    match session_outcome(authorization, stored, key, now) {
        Err(reply) => reply,
        Ok(session) => if session.customer_id.len() == 0 {
            refusal(HttpStatus::UNAUTHORIZED, "unauthorized"@)
        } else {
            (
                HttpStatus::OK,
                GenericResponseView {
                    message: "authorized"@,
                    data: ResponseDataView::Session(session.customer_id),
                    exit_code: 0,
                },
            )
        },
    }
}

/// Tells a request whose session it is: the customer's id, with status 200,
/// if the request has a valid session.
pub fn get_session(
    authorization: &HeaderValue,
    stored: &StoreRead,
    signing_key: &[u8],
    now: u64,
) -> (r: Reply)
    ensures
        reply_view(r) == session_reply(*authorization, *stored, signing_key@, now),
{
    let session = match get_user_session_from_req(authorization, stored, signing_key, now) {
        Ok(session) => session,
        Err(reply) => {
            return reply;
        },
    };
    if session.customer_id.as_str().unicode_len() == 0 {
        return refuse_with(HttpStatus::UNAUTHORIZED, "unauthorized");
    }
    (
        HttpStatus::OK,
        GenericResponse {
            message: "authorized".to_string(),
            data: ResponseData::Session(session.customer_id),
            exit_code: 0,
        },
    )
}

/// Why a session cannot be renewed, if it cannot.
pub open spec fn renewal_refusal(authorization: HeaderValue, stored: StoreRead) -> Option<
    ReplyView,
> {
    match authorization {
        HeaderValue::Text(_) => match stored {
            StoreRead::Unreachable => Some(
                refusal(HttpStatus::INTERNAL_SERVER_ERROR, RedisMessages::FailedToConnect.text()),
            ),
            StoreRead::Failed => Some(
                refusal(HttpStatus::INTERNAL_SERVER_ERROR, RedisMessages::ErrorFetching.text()),
            ),
            StoreRead::Missing => Some(
                refusal(HttpStatus::UNAUTHORIZED, TokenMessages::Expired.text()),
            ),
            StoreRead::Found(id) => if id@.len() == 0 {
                Some(refusal(HttpStatus::UNAUTHORIZED, TokenMessages::Expired.text()))
            } else {
                None
            },
        },
        _ => Some(
            refusal(missing_token_reply(authorization).0, missing_token_reply(authorization).1),
        ),
    }
}

/// Renews a session: the token is to be set again in the session store, for
/// the same customer, with a full time to live. A token that the store no
/// longer holds cannot be renewed and is answered with status 401.
pub fn renew_session(authorization: &HeaderValue, stored: &StoreRead) -> (r: Result<
    SessionWrite,
    Reply,
>)
    ensures
        match r {
            Ok(write) => {
                &&& renewal_refusal(*authorization, *stored) is None
                &&& *authorization matches HeaderValue::Text(token)
                &&& *stored matches StoreRead::Found(id)
                &&& write.token@ == token@
                &&& write.value@ == id@
                &&& write.ttl == SESSION_TTL
            },
            Err(reply) => renewal_refusal(*authorization, *stored) == Some(reply_view(reply)),
        },
{
    let token = extract_token_from_headers(authorization)?;
    let customer_id = match stored {
        StoreRead::Unreachable => {
            return Err(
                refuse(
                    HttpStatus::INTERNAL_SERVER_ERROR,
                    APIMessages::Redis(RedisMessages::FailedToConnect),
                ),
            );
        },
        StoreRead::Failed => {
            return Err(
                refuse(
                    HttpStatus::INTERNAL_SERVER_ERROR,
                    APIMessages::Redis(RedisMessages::ErrorFetching),
                ),
            );
        },
        StoreRead::Missing => {
            return Err(refuse(HttpStatus::UNAUTHORIZED, APIMessages::Token(TokenMessages::Expired)));
        },
        StoreRead::Found(id) => id,
    };
    if customer_id.as_str().unicode_len() == 0 {
        return Err(refuse(HttpStatus::UNAUTHORIZED, APIMessages::Token(TokenMessages::Expired)));
    }
    Ok(SessionWrite { token: token.to_string(), value: customer_id.clone(), ttl: SESSION_TTL })
}

/// The answer once the renewal was written to the session store.
pub fn renew_session_reply(written: StoreWrite) -> (r: Reply)
    ensures
        reply_view(r) == (match written {
            StoreWrite::Done => (
                HttpStatus::OK,
                success(TokenMessages::Renewed.text()),
            ),
            StoreWrite::Failed => refusal(
                HttpStatus::INTERNAL_SERVER_ERROR,
                TokenMessages::ErrorRenewing.text(),
            ),
            StoreWrite::Unreachable => refusal(
                HttpStatus::INTERNAL_SERVER_ERROR,
                RedisMessages::FailedToConnect.text(),
            ),
        }),
{
    match written {
        StoreWrite::Done => (
            HttpStatus::OK,
            GenericResponse::success(TokenMessages::Renewed.to_string()),
        ),
        StoreWrite::Failed => refuse(
            HttpStatus::INTERNAL_SERVER_ERROR,
            APIMessages::Token(TokenMessages::ErrorRenewing),
        ),
        StoreWrite::Unreachable => refuse(
            HttpStatus::INTERNAL_SERVER_ERROR,
            APIMessages::Redis(RedisMessages::FailedToConnect),
        ),
    }
}

/// The answer once a new session was written to the session store: the
/// token, with status 200, if the store took it.
pub fn session_created_reply(write: SessionWrite, written: StoreWrite) -> (r: Reply)
    ensures
        reply_view(r) == (match written {
            StoreWrite::Done => (
                HttpStatus::OK,
                GenericResponseView {
                    message: TokenMessages::Created.text(),
                    data: ResponseDataView::Token(write.token@),
                    exit_code: 0,
                },
            ),
            StoreWrite::Failed => refusal(
                HttpStatus::INTERNAL_SERVER_ERROR,
                RedisMessages::ErrorSettingKey.text(),
            ),
            StoreWrite::Unreachable => refusal(
                HttpStatus::INTERNAL_SERVER_ERROR,
                RedisMessages::FailedToConnect.text(),
            ),
        }),
{
    match written {
        StoreWrite::Done => (
            HttpStatus::OK,
            GenericResponse {
                message: TokenMessages::Created.to_string(),
                data: ResponseData::Token(write.token),
                exit_code: 0,
            },
        ),
        StoreWrite::Failed => refuse(
            HttpStatus::INTERNAL_SERVER_ERROR,
            APIMessages::Redis(RedisMessages::ErrorSettingKey),
        ),
        StoreWrite::Unreachable => refuse(
            HttpStatus::INTERNAL_SERVER_ERROR,
            APIMessages::Redis(RedisMessages::FailedToConnect),
        ),
    }
}

/// Why a lookup gave no customer, if it gave none.
pub open spec fn customer_missing(lookup: Result<Option<Customer>, StorageError>) -> Option<
    ReplyView,
> {
    match lookup {
        Err(_) => Some(refusal(HttpStatus::INTERNAL_SERVER_ERROR, "error fetching customer"@)),
        Ok(None) => Some(refusal(HttpStatus::NOT_FOUND, CustomerMessages::NotFound.text())),
        Ok(Some(_)) => None,
    }
}

/// The customer that a lookup found, or the answer for none.
pub fn found_or_refused(lookup: &Result<Option<Customer>, StorageError>) -> (r: Result<
    &Customer,
    Reply,
>)
    ensures
        match r {
            Ok(customer) => *lookup == Ok::<Option<Customer>, StorageError>(Some(*customer)),
            Err(reply) => customer_missing(*lookup) == Some(reply_view(reply)),
        },
{
    match lookup {
        Err(_) => Err(refuse_with(HttpStatus::INTERNAL_SERVER_ERROR, "error fetching customer")),
        Ok(None) => Err(
            refuse(HttpStatus::NOT_FOUND, APIMessages::Customer(CustomerMessages::NotFound)),
        ),
        Ok(Some(customer)) => Ok(customer),
    }
}

/// Why a sign-in with email and password is refused, if it is.
pub open spec fn sign_in_refusal(
    payload: SignIn,
    lookup: Result<Option<Customer>, StorageError>,
) -> Option<ReplyView> {
    if !matches_pattern(sign_in_email_pattern(), payload.email@) {
        Some(refusal(HttpStatus::BAD_REQUEST, EmailMessages::Invalid.text()))
    } else {
        match lookup {
            Ok(Some(customer)) => if customer.auth_provider != AuthProviders::LEGACY {
                Some(refusal(HttpStatus::UNAUTHORIZED, TokenMessages::OnlyLegacyProvider.text()))
            } else {
                match bcrypt_verifies(payload.password@, customer.password@) {
                    None => Some(
                        refusal(
                            HttpStatus::INTERNAL_SERVER_ERROR,
                            APIMessages::InternalServerError.text(),
                        ),
                    ),
                    Some(false) => Some(
                        refusal(HttpStatus::UNAUTHORIZED, APIMessages::Unauthorized.text()),
                    ),
                    Some(true) => None,
                }
            },
            _ => customer_missing(lookup),
        }
    }
}

/// The filter that finds the customer who signs in, or the answer to an email
/// address of the wrong shape. Addresses are stored in lower case, so the
/// customer is looked for under the address in lower case.
pub fn legacy_authentication_filter(payload: &SignIn) -> (r: Result<CustomerFilter, Reply>)
    ensures
        match r {
            Ok(filter) => matches_pattern(sign_in_email_pattern(), payload.email@) && filter.id@
                == Seq::<char>::empty() && filter.email@ == lowercase(payload.email@),
            Err(reply) => !matches_pattern(sign_in_email_pattern(), payload.email@) && reply_view(
                reply,
            ) == refusal(HttpStatus::BAD_REQUEST, EmailMessages::Invalid.text()),
        },
{
    if !is_match(r"^[a-zA-Z0-9_.+-]+@[a-zA-Z0-9-]+\.[a-zA-Z0-9-.]+$", payload.email.as_str()) {
        return Err(refuse(HttpStatus::BAD_REQUEST, APIMessages::Email(EmailMessages::Invalid)));
    }
    let folded = to_lowercase(payload.email.as_str());
    let filter = build_customer_filter("", folded.as_str());
    proof {
        reveal_strlit("");
        assert(filter.id@ =~= Seq::<char>::empty());
    }
    Ok(filter)
}

/// What a session that was just begun looks like: a token issued to the
/// customer with total access, to be kept in the session store for the
/// customer's id.
pub open spec fn is_new_session(
    write: SessionWrite,
    customer_id: Seq<char>,
    issuer: Seq<char>,
    key: Seq<u8>,
    token_ttl: u64,
    now: u64,
) -> bool {
    &&& write.value@ == customer_id
    &&& write.ttl == SESSION_TTL
    &&& now + token_ttl <= usize::MAX
    &&& is_issued_token(
        write.token@,
        issuer,
        customer_id,
        seq![SessionScopes::TotalAccess],
        now,
        token_ttl,
        key,
    )
}

/// Begins a session for a customer.
fn begin_session(customer: &Customer, issuer: &str, signing_key: &[u8], token_ttl: u64, now: u64) -> (r:
    Result<SessionWrite, Reply>)
    ensures
        r is Ok <==> now + token_ttl <= usize::MAX,
        match r {
            Ok(write) => is_new_session(write, customer.id@, issuer@, signing_key@, token_ttl, now),
            Err(reply) => reply_view(reply) == refusal(
                HttpStatus::INTERNAL_SERVER_ERROR,
                TokenMessages::ErrorCreating.text(),
            ),
        },
{
    let mut scopes: Vec<SessionScopes> = Vec::new();
    scopes.push(SessionScopes::TotalAccess);
    assert(scopes@ =~= seq![SessionScopes::TotalAccess]);
    match create_token(&customer.id, scopes, issuer, signing_key, token_ttl, now) {
        Ok(token) => Ok(SessionWrite { token, value: customer.id.clone(), ttl: SESSION_TTL }),
        Err(_) => Err(
            refuse(
                HttpStatus::INTERNAL_SERVER_ERROR,
                APIMessages::Token(TokenMessages::ErrorCreating),
            ),
        ),
    }
}

/// Signs a customer in with email and password.
///
/// The email address must have the shape of one, the customer must exist and
/// sign in with a password, and the password must be the one the stored hash
/// was made of. Then a token with total access is issued, to be kept in the
/// session store; that fails only if the token's expiry does not fit the
/// machine's word.
pub fn legacy_authentication(
    payload: &SignIn,
    lookup: &Result<Option<Customer>, StorageError>,
    issuer: &str,
    signing_key: &[u8],
    token_ttl: u64,
    now: u64,
) -> (r: Result<SessionWrite, Reply>)
    ensures
        match r {
            Ok(write) => {
                &&& sign_in_refusal(*payload, *lookup) is None
                &&& *lookup matches Ok(Some(customer))
                &&& is_new_session(write, customer.id@, issuer@, signing_key@, token_ttl, now)
            },
            Err(reply) => match sign_in_refusal(*payload, *lookup) {
                Some(refused) => reply_view(reply) == refused,
                None => now + token_ttl > usize::MAX && reply_view(reply) == refusal(
                    HttpStatus::INTERNAL_SERVER_ERROR,
                    TokenMessages::ErrorCreating.text(),
                ),
            },
        },
        r is Ok <==> sign_in_refusal(*payload, *lookup) is None && now + token_ttl
            <= usize::MAX,
{
    if !is_match(r"^[a-zA-Z0-9_.+-]+@[a-zA-Z0-9-]+\.[a-zA-Z0-9-.]+$", payload.email.as_str()) {
        return Err(refuse(HttpStatus::BAD_REQUEST, APIMessages::Email(EmailMessages::Invalid)));
    }
    let customer = found_or_refused(lookup)?;
    if customer.auth_provider != AuthProviders::LEGACY {
        return Err(
            refuse(HttpStatus::UNAUTHORIZED, APIMessages::Token(TokenMessages::OnlyLegacyProvider)),
        );
    }
    match verify_password(payload.password.as_str(), customer.password.as_str()) {
        Ok(is_valid) => {
            if !is_valid {
                return Err(refuse(HttpStatus::UNAUTHORIZED, APIMessages::Unauthorized));
            }
        },
        Err(_) => {
            return Err(
                refuse(HttpStatus::INTERNAL_SERVER_ERROR, APIMessages::InternalServerError),
            );
        },
    }
    begin_session(customer, issuer, signing_key, token_ttl, now)
}

/// A session that was just begun is resolved for its customer, with total
/// access, at every second up to the token's expiry, as long as the session
/// store holds the token for the customer.
pub proof fn lemma_new_session_resolves(
    write: SessionWrite,
    customer_id: Seq<char>,
    stored: String,
    issuer: Seq<char>,
    key: Seq<u8>,
    token_ttl: u64,
    now: u64,
    later: u64,
)
    requires
        is_new_session(write, customer_id, issuer, key, token_ttl, now),
        stored@ == customer_id,
        later <= now + token_ttl,
    ensures
        session_outcome(HeaderValue::Text(write.token), StoreRead::Found(stored), key, later)
            == Ok::<SessionDataView, ReplyView>(
            SessionDataView { customer_id, scopes: seq![SessionScopes::TotalAccess] },
        ),
{
    lemma_issued_token_verifies(
        write.token@,
        issuer,
        customer_id,
        seq![SessionScopes::TotalAccess],
        now,
        token_ttl,
        key,
        later,
    );
    lemma_scopes_round_trip(seq![SessionScopes::TotalAccess]);
}

/// What exchanging Google's authorization code gave.
#[derive(Clone, Debug, PartialEq, Eq)]
pub enum GoogleExchange {
    /// Google described the user.
    User(GoogleUserResult),
    /// Google gave no tokens for the code.
    TokenRefused,
    /// Google gave tokens and did not describe the user.
    UserRefused,
}

/// Why Google's redirect gives no authorization code, if it gives none.
pub open spec fn redirect_refusal(params: GoogleOAuthQueryParams) -> Option<ReplyView> {
    if params.error is Some {
        Some(refusal(HttpStatus::BAD_REQUEST, TokenMessages::ErrorRequestingGoogleToken.text()))
    } else if params.code is None {
        Some(refusal(HttpStatus::BAD_REQUEST, TokenMessages::Missing.text()))
    } else {
        None
    }
}

/// Takes the authorization code from Google's redirect.
pub fn google_authorization_code(params: &GoogleOAuthQueryParams) -> (r: Result<&String, Reply>)
    ensures
        match r {
            Ok(code) => redirect_refusal(*params) is None && params.code == Some(*code),
            Err(reply) => redirect_refusal(*params) == Some(reply_view(reply)),
        },
{
    if params.error.is_some() {
        return Err(
            refuse(
                HttpStatus::BAD_REQUEST,
                APIMessages::Token(TokenMessages::ErrorRequestingGoogleToken),
            ),
        );
    }
    match &params.code {
        Some(code) => Ok(code),
        None => Err(refuse(HttpStatus::BAD_REQUEST, APIMessages::Token(TokenMessages::Missing))),
    }
}

/// Why the exchange with Google names no email address, if it names none.
pub open spec fn exchange_refusal(exchange: GoogleExchange) -> Option<ReplyView> {
    match exchange {
        GoogleExchange::TokenRefused => Some(
            refusal(
                HttpStatus::INTERNAL_SERVER_ERROR,
                TokenMessages::ErrorRequestingGoogleToken.text(),
            ),
        ),
        GoogleExchange::UserRefused => Some(
            refusal(
                HttpStatus::INTERNAL_SERVER_ERROR,
                TokenMessages::ErrorFetchingUserFromGoogle.text(),
            ),
        ),
        GoogleExchange::User(user) => if user.email is None {
            Some(
                refusal(
                    HttpStatus::INTERNAL_SERVER_ERROR,
                    TokenMessages::ErrorFetchingUserFromGoogle.text(),
                ),
            )
        } else {
            None
        },
    }
}

/// The user Google described and the user's email address.
pub fn google_user(exchange: &GoogleExchange) -> (r: Result<(&GoogleUserResult, &String), Reply>)
    ensures
        match r {
            Ok((user, email)) => *exchange == GoogleExchange::User(*user) && user.email == Some(
                *email,
            ),
            Err(reply) => exchange_refusal(*exchange) == Some(reply_view(reply)),
        },
{
    match exchange {
        GoogleExchange::TokenRefused => Err(
            refuse(
                HttpStatus::INTERNAL_SERVER_ERROR,
                APIMessages::Token(TokenMessages::ErrorRequestingGoogleToken),
            ),
        ),
        GoogleExchange::UserRefused => Err(
            refuse(
                HttpStatus::INTERNAL_SERVER_ERROR,
                APIMessages::Token(TokenMessages::ErrorFetchingUserFromGoogle),
            ),
        ),
        GoogleExchange::User(user) => match &user.email {
            Some(email) => Ok((user, email)),
            None => Err(
                refuse(
                    HttpStatus::INTERNAL_SERVER_ERROR,
                    APIMessages::Token(TokenMessages::ErrorFetchingUserFromGoogle),
                ),
            ),
        },
    }
}

/// The filter that finds the customer whom Google described, under the
/// user's email address in lower case.
pub fn google_customer_filter(exchange: &GoogleExchange) -> (r: Result<CustomerFilter, Reply>)
    ensures
        match r {
            Ok(filter) => {
                &&& exchange_refusal(*exchange) is None
                &&& *exchange matches GoogleExchange::User(user)
                &&& user.email matches Some(email)
                &&& filter.email@ == lowercase(email@)
                &&& filter.id@ == Seq::<char>::empty()
            },
            Err(reply) => exchange_refusal(*exchange) == Some(reply_view(reply)),
        },
{
    let (_, email) = google_user(exchange)?;
    let folded = to_lowercase(email.as_str());
    let filter = build_customer_filter("", folded.as_str());
    proof {
        reveal_strlit("");
        assert(filter.id@ =~= Seq::<char>::empty());
    }
    Ok(filter)
}

/// What is told of a Google user who has no customer record.
pub open spec fn google_profile(user: GoogleUserResult) -> ResponseDataView {
    ResponseDataView::CreateCustomerRecord(
        GoogleProfileView {
            openid: user.id.deep_view(),
            email: user.email.unwrap()@,
            verified_email: user.verified_email,
            name: user.name.deep_view(),
            given_name: user.given_name.deep_view(),
            family_name: user.family_name.deep_view(),
            picture: user.picture.deep_view(),
            locale: user.locale.deep_view(),
        },
    )
}

/// Why a sign-in with Google is refused, if it is.
pub open spec fn google_refusal(
    params: GoogleOAuthQueryParams,
    exchange: GoogleExchange,
    lookup: Result<Option<Customer>, StorageError>,
) -> Option<ReplyView> {
    if redirect_refusal(params) is Some {
        redirect_refusal(params)
    } else if exchange_refusal(exchange) is Some {
        exchange_refusal(exchange)
    } else {
        match lookup {
            Err(_) => customer_missing(lookup),
            Ok(None) => Some(
                (
                    HttpStatus::NOT_FOUND,
                    GenericResponseView {
                        message: CustomerMessages::NotFound.text(),
                        data: google_profile(exchange->User_0),
                        exit_code: 1,
                    },
                ),
            ),
            Ok(Some(customer)) => if customer.auth_provider != AuthProviders::GOOGLE {
                Some(refusal(HttpStatus::UNAUTHORIZED, TokenMessages::OnlyGoogleProvider.text()))
            } else {
                None
            },
        }
    }
}

fn copy_optional(text: &Option<String>) -> (r: Option<String>)
    ensures
        r.deep_view() == text.deep_view(),
{
    match text {
        Some(text) => Some(text.clone()),
        None => None,
    }
}

/// Signs a customer in with Google.
///
/// The redirect must carry a code and no error, Google must have described a
/// user with an email address, and the customer with that address must exist
/// and sign in with Google. A user without a record is answered with status
/// 404 and with what Google told, so that a record can be created. Then a
/// token with total access is issued, to be kept in the session store; that
/// fails only if the token's expiry does not fit the machine's word.
pub fn gooogle_authentication(
    params: &GoogleOAuthQueryParams,
    exchange: &GoogleExchange,
    lookup: &Result<Option<Customer>, StorageError>,
    issuer: &str,
    signing_key: &[u8],
    token_ttl: u64,
    now: u64,
) -> (r: Result<SessionWrite, Reply>)
    ensures
        match r {
            Ok(write) => {
                &&& google_refusal(*params, *exchange, *lookup) is None
                &&& *lookup matches Ok(Some(customer))
                &&& is_new_session(write, customer.id@, issuer@, signing_key@, token_ttl, now)
            },
            Err(reply) => match google_refusal(*params, *exchange, *lookup) {
                Some(refused) => reply_view(reply) == refused,
                None => now + token_ttl > usize::MAX && reply_view(reply) == refusal(
                    HttpStatus::INTERNAL_SERVER_ERROR,
                    TokenMessages::ErrorCreating.text(),
                ),
            },
        },
        r is Ok <==> google_refusal(*params, *exchange, *lookup) is None && now + token_ttl
            <= usize::MAX,
{
    let _ = google_authorization_code(params)?;
    let (user, email) = google_user(exchange)?;
    let customer = match lookup {
        Err(_) => {
            return Err(refuse_with(HttpStatus::INTERNAL_SERVER_ERROR, "error fetching customer"));
        },
        Ok(None) => {
            let profile = GoogleProfile {
                openid: copy_optional(&user.id),
                email: email.clone(),
                verified_email: user.verified_email,
                name: copy_optional(&user.name),
                given_name: copy_optional(&user.given_name),
                family_name: copy_optional(&user.family_name),
                picture: copy_optional(&user.picture),
                locale: copy_optional(&user.locale),
            };
            return Err(
                (
                    HttpStatus::NOT_FOUND,
                    GenericResponse {
                        message: CustomerMessages::NotFound.to_string(),
                        data: ResponseData::CreateCustomerRecord(profile),
                        exit_code: 1,
                    },
                ),
            );
        },
        Ok(Some(customer)) => customer,
    };
    if customer.auth_provider != AuthProviders::GOOGLE {
        return Err(
            refuse(HttpStatus::UNAUTHORIZED, APIMessages::Token(TokenMessages::OnlyGoogleProvider)),
        );
    }
    begin_session(customer, issuer, signing_key, token_ttl, now)
}

} // verus!
