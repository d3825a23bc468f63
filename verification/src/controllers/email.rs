//! Email addresses: one more for a customer, and their verification.

use vstd::prelude::*;
use crate::controllers::customer::{not_allowed, Write};
use crate::controllers::identity::{customer_missing, found_or_refused};
use crate::controllers::scopes::{grants, is_granted, SessionData, SessionScopes};
use crate::server::AppState;
use crate::storage::{
    build_customer_filter,
    CustomerFilter,
    has_address,
    holds_address,
    lemma_main_count_push,
    updated_customer,
    CustomerUpdate,
    CustomerUpdateView,
    SessionWrite,
    StorageError,
    StoreRead,
    StoreWrite,
};
use crate::text::{lowercase, same_text, to_lowercase};
use crate::types::customer::{
    well_formed,
    Customer,
    CustomerView,
    Email,
    EmailView,
    MAX_EMAILS,
};
use crate::types::email::SendEmailData;
use crate::types::incoming_requests::{CustomerAddEmail, VerifyEmailQueryParams};
use crate::types::response::{
    refusal,
    reply_view,
    success,
    GenericResponse,
    HttpStatus,
    Reply,
    ReplyView,
};
use crate::utilities::api_messages::{
    APIMessages,
    CustomerMessages,
    EmailMessages,
    RedisMessages,
    TokenMessages,
};
use crate::utilities::helpers::{
    email_accepted,
    is_identifier,
    random_string,
    refuse,
    refuse_with,
    valid_email,
};

verus! {

/// The length of the token of an email verification.
pub const VERIFICATION_TOKEN_LENGTH: usize = 30;

/// Why an email address cannot be added for what the customer's own record
/// holds, if it cannot.
pub open spec fn add_email_own_refusal(
    session: SessionData,
    payload: CustomerAddEmail,
    lookup: Result<Option<Customer>, StorageError>,
) -> Option<ReplyView> {
    if !grants(session.scopes@, seq![SessionScopes::UpdateEmailAddresses]) {
        Some(not_allowed())
    } else {
        match lookup {
            Ok(Some(customer)) => if customer.emails@.len() >= MAX_EMAILS {
                Some(refusal(HttpStatus::BAD_REQUEST, EmailMessages::MaxEmailsReached.text()))
            } else if !email_accepted(lowercase(payload.email@)) {
                Some(refusal(HttpStatus::BAD_REQUEST, EmailMessages::Invalid.text()))
            } else if has_address(customer.emails.deep_view(), lowercase(payload.email@)) {
                Some(refusal(HttpStatus::BAD_REQUEST, EmailMessages::Taken.text()))
            } else {
                None
            },
            _ => customer_missing(lookup),
        }
    }
}

/// Why an email address cannot be added for who else holds it, if it
/// cannot.
pub open spec fn add_email_holder_refusal(
    customer_id: Seq<char>,
    holder: Result<Option<Customer>, StorageError>,
) -> Option<ReplyView> {
    match holder {
        Err(_) => Some(refusal(HttpStatus::INTERNAL_SERVER_ERROR, "error fetching customer"@)),
        Ok(Some(other)) => if other.id@ != customer_id {
            Some(refusal(HttpStatus::BAD_REQUEST, EmailMessages::TakenByOtherCustomer.text()))
        } else {
            Some(refusal(HttpStatus::BAD_REQUEST, EmailMessages::TakenByYou.text()))
        },
        Ok(None) => None,
    }
}

/// Checks a new email address against the customer's own record and gives
/// it in lower case.
fn checked_address<'a>(
    session: &SessionData,
    payload: &CustomerAddEmail,
    lookup: &'a Result<Option<Customer>, StorageError>,
) -> (r: Result<(&'a Customer, String), Reply>)
    ensures
        match r {
            Ok((customer, email)) => {
                &&& add_email_own_refusal(*session, *payload, *lookup) is None
                &&& *lookup == Ok::<Option<Customer>, StorageError>(Some(*customer))
                &&& email@ == lowercase(payload.email@)
            },
            Err(reply) => add_email_own_refusal(*session, *payload, *lookup) == Some(
                reply_view(reply),
            ),
        },
{
    let mut required: Vec<SessionScopes> = Vec::new();
    required.push(SessionScopes::UpdateEmailAddresses);
    assert(required@ =~= seq![SessionScopes::UpdateEmailAddresses]);
    if !is_granted(&session.scopes, &required) {
        return Err(
            refuse(
                HttpStatus::UNAUTHORIZED,
                APIMessages::Token(TokenMessages::NotAllowedScopesToPerformAction),
            ),
        );
    }
    let customer = found_or_refused(lookup)?;
    if customer.emails.len() >= MAX_EMAILS {
        return Err(
            refuse(HttpStatus::BAD_REQUEST, APIMessages::Email(EmailMessages::MaxEmailsReached)),
        );
    }
    let email = to_lowercase(payload.email.as_str());
    let _ = valid_email(email.as_str())?;
    if holds_address(&customer.emails, email.as_str()) {
        return Err(refuse(HttpStatus::BAD_REQUEST, APIMessages::Email(EmailMessages::Taken)));
    }
    Ok((customer, email))
}

/// The filter that finds who holds the email address to add, or the answer
/// to a request that is refused for the customer's own record.
pub fn add_email_filter(
    session: &SessionData,
    payload: &CustomerAddEmail,
    lookup: &Result<Option<Customer>, StorageError>,
) -> (r: Result<CustomerFilter, Reply>)
    ensures
        match r {
            Ok(filter) => add_email_own_refusal(*session, *payload, *lookup) is None
                && filter.email@ == lowercase(payload.email@) && filter.id@ == Seq::<
                char,
            >::empty(),
            Err(reply) => add_email_own_refusal(*session, *payload, *lookup) == Some(
                reply_view(reply),
            ),
        },
{
    let (_, email) = checked_address(session, payload, lookup)?;
    let filter = build_customer_filter("", email.as_str());
    proof {
        reveal_strlit("");
        assert(filter.id@ =~= Seq::<char>::empty());
    }
    Ok(filter)
}

/// Adds an email address to the session's customer at the time `now`.
///
/// The session must hold the scope to update email addresses, or total
/// access, and its customer must exist and hold fewer than five addresses.
/// The address is put in lower case; it must be valid, the customer must not
/// hold it yet, and `holder`, the lookup of the address among all customers,
/// must have found nobody. The new entry is not verified and is not the main
/// one.
pub fn add_email(
    session: &SessionData,
    payload: &CustomerAddEmail,
    lookup: &Result<Option<Customer>, StorageError>,
    holder: &Result<Option<Customer>, StorageError>,
    now: &str,
) -> (r: Result<Write, Reply>)
    ensures
        match r {
            Ok(write) => {
                &&& add_email_own_refusal(*session, *payload, *lookup) is None
                &&& *lookup matches Ok(Some(customer))
                &&& add_email_holder_refusal(customer.id@, *holder) is None
                &&& customer.emails@.len() < MAX_EMAILS
                &&& write.0.id@ == session.customer_id@
                &&& write.0.email@ == Seq::<char>::empty()
                &&& write.1@ == (CustomerUpdateView::AddEmail {
                    email: EmailView {
                        address: lowercase(payload.email@),
                        verified: false,
                        main: false,
                    },
                    updated_at: now@,
                })
            },
            Err(reply) => match add_email_own_refusal(*session, *payload, *lookup) {
                Some(refused) => reply_view(reply) == refused,
                None => *lookup matches Ok(Some(customer)) && add_email_holder_refusal(
                    customer.id@,
                    *holder,
                ) == Some(reply_view(reply)),
            },
        },
{
    let (customer, email) = checked_address(session, payload, lookup)?;
    match holder {
        Err(_) => {
            return Err(refuse_with(HttpStatus::INTERNAL_SERVER_ERROR, "error fetching customer"));
        },
        Ok(Some(other)) => {
            if !same_text(other.id.as_str(), customer.id.as_str()) {
                return Err(
                    refuse(
                        HttpStatus::BAD_REQUEST,
                        APIMessages::Email(EmailMessages::TakenByOtherCustomer),
                    ),
                );
            }
            return Err(
                refuse(HttpStatus::BAD_REQUEST, APIMessages::Email(EmailMessages::TakenByYou)),
            );
        },
        Ok(None) => {},
    }
    let filter = build_customer_filter(session.customer_id.as_str(), "");
    proof {
        reveal_strlit("");
        assert(filter.email@ =~= Seq::<char>::empty());
    }
    Ok(
        (
            filter,
            CustomerUpdate::AddEmail {
                email: Email { address: email, verified: false, main: false },
                updated_at: now.to_string(),
            },
        ),
    )
}

/// After an email address was added, the customer holds at most five
/// addresses, the new one is the last, it is not verified and is not the main
/// one; a record that was well formed still is.
pub proof fn lemma_added_email(before: CustomerView, address: Seq<char>, now: Seq<char>)
    requires
        before.emails.len() < MAX_EMAILS,
    ensures
        ({
            let email = EmailView { address, verified: false, main: false };
            let after = updated_customer(
                before,
                CustomerUpdateView::AddEmail { email, updated_at: now },
            );
            &&& after.emails.len() == before.emails.len() + 1
            &&& after.emails.len() <= MAX_EMAILS
            &&& !after.emails.last().verified
            &&& !after.emails.last().main
            &&& after.emails.last().address == address
            &&& after.emails.drop_last() == before.emails
            &&& well_formed(before) ==> well_formed(after)
        }),
{
    let email = EmailView { address, verified: false, main: false };
    lemma_main_count_push(before.emails, email);
    assert(before.emails.push(email).drop_last() =~= before.emails);
}

/// The link that verifies an email address with a token.
pub open spec fn verification_link(redirect_url: Seq<char>, token: Seq<char>) -> Seq<char> {
    redirect_url + "?token="@ + token
}

/// The greeting of a verification email.
pub open spec fn greetings_title(name: Seq<char>) -> Seq<char> {
    "Welcome to Test App "@ + name
}

/// The verification of an email address: the token to keep in the session
/// store for the address, and the email that carries the link.
#[derive(Clone, Debug, PartialEq, Eq)]
pub struct EmailVerification {
    pub token: SessionWrite,
    pub email: SendEmailData,
}

/// Whether a verification is the one of an address with a given token.
pub open spec fn is_verification_with(
    verification: EmailVerification,
    state: AppState,
    api_key: Seq<char>,
    customer_email: Seq<char>,
    customer_name: Seq<char>,
    subject: Seq<char>,
    token: Seq<char>,
) -> bool {
    &&& verification.token.token@ == token
    &&& verification.token.value@ == customer_email
    &&& verification.token.ttl == state.api_tokens_expiration_time
    &&& verification.email.api_key@ == api_key
    &&& verification.email.template_id
        == state.email_provider_settings.email_verification_template_id
    &&& verification.email.subject@ == subject
    &&& verification.email.sender_email@ == state.master_email_entity.email@
    &&& verification.email.sender_name@ == state.master_email_entity.name@
    &&& verification.email.customer_email@ == customer_email
    &&& verification.email.customer_name@ == customer_name
    &&& verification.email.verification_link@ == verification_link(
        state.google_auth.redirect_url@,
        token,
    )
    &&& verification.email.greetings_title@ == greetings_title(customer_name)
}

/// Prepares the verification of an email address with the given token.
pub fn email_verification_with_token(
    state: &AppState,
    api_key: String,
    customer_email: String,
    customer_name: String,
    subject: &str,
    token: String,
) -> (r: EmailVerification)
    ensures
        is_verification_with(
            r,
            *state,
            api_key@,
            customer_email@,
            customer_name@,
            subject@,
            token@,
        ),
{
    let ttl = state.api_tokens_expiration_time;
    let mut greeting = "Welcome to Test App ".to_string();
    greeting.append(customer_name.as_str());
    let mut link = state.google_auth.redirect_url.clone();
    link.append("?token=");
    link.append(token.as_str());
    EmailVerification {
        token: SessionWrite { token, value: customer_email.clone(), ttl },
        email: SendEmailData {
            api_key,
            template_id: state.email_provider_settings.email_verification_template_id,
            subject: subject.to_string(),
            sender_email: state.master_email_entity.email.clone(),
            sender_name: state.master_email_entity.name.clone(),
            customer_email,
            customer_name,
            verification_link: link,
            greetings_title: greeting,
        },
    }
}

/// Prepares the verification of an email address: draws a fresh token of 30
/// letters and digits, to be kept in the session store for the address, and
/// writes the email that carries the link with the token.
pub fn new_email_verification(
    state: &AppState,
    api_key: String,
    customer_email: String,
    customer_name: String,
    subject: &str,
) -> (r: EmailVerification)
    ensures
        is_identifier(r.token.token@, VERIFICATION_TOKEN_LENGTH),
        is_verification_with(
            r,
            *state,
            api_key@,
            customer_email@,
            customer_name@,
            subject@,
            r.token.token@,
        ),
{
    let token = random_string(VERIFICATION_TOKEN_LENGTH);
    email_verification_with_token(state, api_key, customer_email, customer_name, subject, token)
}

/// What became of the verification email for an address that was added.
#[derive(Clone, Copy, Debug, PartialEq, Eq, Structural)]
pub enum VerificationOutcome {
    /// The token is stored and the email went out.
    Sent,
    /// The repository did not take the address.
    NotWritten,
    /// No key for the email provider is configured.
    NotConfigured,
    /// The session store could not be reached.
    StoreUnreachable,
    /// The session store did not take the token.
    TokenNotStored,
    /// The email was not sent.
    EmailFailed,
}

/// The answer to a request that added an email address.
pub open spec fn added_email_reply(outcome: VerificationOutcome) -> ReplyView {
    match outcome {
        VerificationOutcome::Sent => (HttpStatus::OK, success(CustomerMessages::EmailAdded.text())),
        VerificationOutcome::NotWritten => refusal(
            HttpStatus::INTERNAL_SERVER_ERROR,
            "error updating record in database"@,
        ),
        VerificationOutcome::NotConfigured => refusal(
            HttpStatus::INTERNAL_SERVER_ERROR,
            CustomerMessages::ErrorRegisteringCustomerInMarketingPlatform.text(),
        ),
        VerificationOutcome::StoreUnreachable => refusal(
            HttpStatus::INTERNAL_SERVER_ERROR,
            RedisMessages::FailedToConnect.text(),
        ),
        VerificationOutcome::TokenNotStored => refusal(
            HttpStatus::INTERNAL_SERVER_ERROR,
            RedisMessages::ErrorSettingKey.text(),
        ),
        VerificationOutcome::EmailFailed => refusal(
            HttpStatus::INTERNAL_SERVER_ERROR,
            EmailMessages::ErrorSendingVerificationEmail.text(),
        ),
    }
}

/// Answers a request to add an email address, once the write and the
/// verification were attempted.
pub fn email_added_reply(outcome: VerificationOutcome) -> (r: Reply)
    ensures
        reply_view(r) == added_email_reply(outcome),
{
    match outcome {
        VerificationOutcome::Sent => (
            HttpStatus::OK,
            GenericResponse::success(CustomerMessages::EmailAdded.to_string()),
        ),
        VerificationOutcome::NotWritten => refuse_with(
            HttpStatus::INTERNAL_SERVER_ERROR,
            "error updating record in database",
        ),
        VerificationOutcome::NotConfigured => refuse(
            HttpStatus::INTERNAL_SERVER_ERROR,
            APIMessages::Customer(CustomerMessages::ErrorRegisteringCustomerInMarketingPlatform),
        ),
        VerificationOutcome::StoreUnreachable => refuse(
            HttpStatus::INTERNAL_SERVER_ERROR,
            APIMessages::Redis(RedisMessages::FailedToConnect),
        ),
        VerificationOutcome::TokenNotStored => refuse(
            HttpStatus::INTERNAL_SERVER_ERROR,
            APIMessages::Redis(RedisMessages::ErrorSettingKey),
        ),
        VerificationOutcome::EmailFailed => refuse(
            HttpStatus::INTERNAL_SERVER_ERROR,
            APIMessages::Email(EmailMessages::ErrorSendingVerificationEmail),
        ),
    }
}

/// Why a verification token is not redeemed, if it is not.
pub open spec fn redemption_refusal(params: VerifyEmailQueryParams, stored: StoreRead) -> Option<
    ReplyView,
> {
    if params.token is None {
        Some(refusal(HttpStatus::BAD_REQUEST, TokenMessages::Missing.text()))
    } else {
        match stored {
            StoreRead::Unreachable => Some(
                refusal(HttpStatus::INTERNAL_SERVER_ERROR, RedisMessages::FailedToConnect.text()),
            ),
            StoreRead::Failed => Some(
                refusal(HttpStatus::INTERNAL_SERVER_ERROR, RedisMessages::ErrorFetching.text()),
            ),
            StoreRead::Missing => Some(
                refusal(HttpStatus::UNAUTHORIZED, APIMessages::Unauthorized.text()),
            ),
            StoreRead::Found(address) => if address@.len() == 0 {
                Some(refusal(HttpStatus::UNAUTHORIZED, APIMessages::Unauthorized.text()))
            } else {
                None
            },
        }
    }
}

/// Redeems a verification token: the address that the session store holds
/// under the token is to be marked as verified in the record that holds it.
/// A token that the store does not hold is answered with status 401.
pub fn verify_email(params: &VerifyEmailQueryParams, stored: &StoreRead) -> (r: Result<
    Write,
    Reply,
>)
    ensures
        match r {
            Ok(write) => {
                &&& redemption_refusal(*params, *stored) is None
                &&& *stored matches StoreRead::Found(address)
                &&& write.0.id@ == Seq::<char>::empty()
                &&& write.0.email@ == address@
                &&& write.1@ == (CustomerUpdateView::VerifyEmail { address: address@ })
            },
            Err(reply) => redemption_refusal(*params, *stored) == Some(reply_view(reply)),
        },
{
    if params.token.is_none() {
        return Err(refuse(HttpStatus::BAD_REQUEST, APIMessages::Token(TokenMessages::Missing)));
    }
    let address = match stored {
        StoreRead::Unreachable => {
            return Err(
                refuse(
                    HttpStatus::INTERNAL_SERVER_ERROR,
                    APIMessages::Redis(RedisMessages::FailedToConnect),
                ),
            );
        },
        StoreRead::Failed => {
            return Err(
                refuse(
                    HttpStatus::INTERNAL_SERVER_ERROR,
                    APIMessages::Redis(RedisMessages::ErrorFetching),
                ),
            );
        },
        StoreRead::Missing => {
            return Err(refuse(HttpStatus::UNAUTHORIZED, APIMessages::Unauthorized));
        },
        StoreRead::Found(address) => address,
    };
    if address.as_str().unicode_len() == 0 {
        return Err(refuse(HttpStatus::UNAUTHORIZED, APIMessages::Unauthorized));
    }
    let filter = build_customer_filter("", address.as_str());
    proof {
        reveal_strlit("");
        assert(filter.id@ =~= Seq::<char>::empty());
    }
    Ok((filter, CustomerUpdate::VerifyEmail { address: address.clone() }))
}

/// The answer to a redeemed verification token, once the record was written
/// and the token deleted. `deleted` is none if the record was not written and
/// the token was left in place.
pub open spec fn verified_reply(written: Result<(), StorageError>, deleted: Option<StoreWrite>) -> ReplyView {
    if written is Err {
        refusal(HttpStatus::INTERNAL_SERVER_ERROR, "error updating record in database"@)
    } else if deleted == Some(StoreWrite::Done) {
        (HttpStatus::OK, success(EmailMessages::Verified.text()))
    } else {
        refusal(HttpStatus::INTERNAL_SERVER_ERROR, RedisMessages::ErrorDeleting.text())
    }
}

/// Answers a redeemed verification token.
pub fn verify_email_reply(written: &Result<(), StorageError>, deleted: Option<StoreWrite>) -> (r:
    Reply)
    ensures
        reply_view(r) == verified_reply(*written, deleted),
{
    if written.is_err() {
        return refuse_with(HttpStatus::INTERNAL_SERVER_ERROR, "error updating record in database");
    }
    match deleted {
        Some(StoreWrite::Done) => (
            HttpStatus::OK,
            GenericResponse::success(EmailMessages::Verified.to_string()),
        ),
        _ => refuse(HttpStatus::INTERNAL_SERVER_ERROR, APIMessages::Redis(RedisMessages::ErrorDeleting)),
    }
}

} // verus!
