//! What follows a write to the repository: the record of a sign-up is
//! stored, registered with the marketing platform and sent a verification
//! email; an added email address is sent one. Each is a sequence of steps, and
//! what the next step is, is decided here from how the last one went.
//!
//! A sign-up is stored first and announced afterwards, so that nobody is
//! written to about an account that does not exist.

use vstd::prelude::*;
use crate::controllers::customer::SignupOutcome;
use crate::controllers::email::{
    is_verification_with,
    new_email_verification,
    EmailVerification,
    VerificationOutcome,
    VERIFICATION_TOKEN_LENGTH,
};
use crate::email::actions::create_contact_request;
use crate::server::AppState;
use crate::storage::{StorageError, StoreWrite};
use crate::types::customer::Customer;
use crate::types::email::{CreateContact, CreateContactView, SendEmailData};
use crate::utilities::helpers::is_identifier;

verus! {

/// The subject of the verification email after a sign-up.
pub open spec fn signup_subject() -> Seq<char> {
    "Verify Your Email Address To Start Using Test App"@
}

/// The subject of the verification email for an added address.
pub open spec fn added_email_subject() -> Seq<char> {
    "Verify Your New Email Address"@
}

/// How the last step of storing and announcing a sign-up went.
#[derive(Debug, PartialEq, Eq)]
pub enum SignupEvent {
    /// The record was built; nothing was done yet.
    Built,
    /// The record was handed to the repository.
    Inserted(Result<(), StorageError>),
    /// The contact was handed to the marketing platform, which took it or
    /// not.
    ContactRegistered(bool),
    /// The verification token was handed to the session store; the email
    /// that carries it is still to be sent.
    TokenKept(SendEmailData, StoreWrite),
    /// The verification email was handed to the email provider, which took
    /// it or not.
    EmailSent(bool),
}

/// The next step of storing and announcing a sign-up.
#[derive(Debug, PartialEq, Eq)]
pub enum SignupAction {
    /// Store the record.
    Insert,
    /// Register the contact with the marketing platform.
    RegisterContact { api_key: String, contact: CreateContact },
    /// Keep the verification token in the session store.
    KeepToken(EmailVerification),
    /// Send the verification email.
    SendEmail(SendEmailData),
    /// Nothing is left to do: answer with this outcome.
    Finish(SignupOutcome),
}

/// Whether the sign-up is over with the given outcome.
pub open spec fn finishes(action: SignupAction, outcome: SignupOutcome) -> bool {
    action matches SignupAction::Finish(o) && o == outcome
}

/// Whether a customer can be announced: the marketing platform is
/// configured with a list for new customers, and the record holds an email
/// address.
pub open spec fn can_announce(state: AppState, customer: Customer) -> bool {
    state.marketing matches Some(marketing) && marketing.customers_list_id is Some
        && customer.emails@.len() > 0
}

/// The contact of a customer for the marketing platform.
pub open spec fn contact_of(state: AppState, customer: Customer) -> CreateContactView {
    CreateContactView {
        update_enabled: false,
        email: customer.emails@[0].address@,
        ext_id: customer.id@,
        email_blacklisted: false,
        sms_blacklisted: false,
        list_ids: seq![state.marketing.unwrap().customers_list_id.unwrap()],
    }
}

/// Whether an action is the next step of a sign-up after an event.
///
/// The record is stored first. If the marketing platform is configured with
/// a list for new customers, the contact is registered next; if email
/// integration is switched on as well, a fresh verification token is kept in
/// the session store and then the email with its link is sent. The first step
/// that fails ends the sign-up with its failure; without a failure it ends as
/// stored.
pub open spec fn is_signup_action(
    state: AppState,
    customer: Customer,
    event: SignupEvent,
    action: SignupAction,
) -> bool {
    match event {
        SignupEvent::Built => action is Insert,
        SignupEvent::Inserted(written) => if written is Err {
            finishes(action, SignupOutcome::InsertFailed)
        } else if can_announce(state, customer) {
            action matches SignupAction::RegisterContact { api_key, contact } && api_key@
                == state.marketing.unwrap().api_key@ && contact@ == contact_of(state, customer)
        } else {
            finishes(action, SignupOutcome::Stored)
        },
        SignupEvent::ContactRegistered(registered) => if !registered {
            finishes(action, SignupOutcome::ContactFailed)
        } else if state.enabled_email_integration && can_announce(state, customer) {
            action matches SignupAction::KeepToken(verification) && is_identifier(
                verification.token.token@,
                VERIFICATION_TOKEN_LENGTH,
            ) && is_verification_with(
                verification,
                state,
                state.marketing.unwrap().api_key@,
                customer.emails@[0].address@,
                customer.name@,
                signup_subject(),
                verification.token.token@,
            )
        } else {
            finishes(action, SignupOutcome::Stored)
        },
        SignupEvent::TokenKept(email, kept) => match kept {
            StoreWrite::Done => action matches SignupAction::SendEmail(data) && data@ == email@,
            StoreWrite::Failed => finishes(action, SignupOutcome::TokenNotStored),
            StoreWrite::Unreachable => finishes(action, SignupOutcome::StoreUnreachable),
        },
        SignupEvent::EmailSent(sent) => finishes(
            action,
            if sent {
                SignupOutcome::Stored
            } else {
                SignupOutcome::EmailFailed
            },
        ),
    }
}

/// Decides the next step of storing and announcing a sign-up from how the
/// last step went.
pub fn signup_next(state: &AppState, customer: &Customer, event: SignupEvent) -> (action:
    SignupAction)
    ensures
        is_signup_action(*state, *customer, event, action),
{
    match event {
        SignupEvent::Built => SignupAction::Insert,
        SignupEvent::Inserted(Err(_)) => SignupAction::Finish(SignupOutcome::InsertFailed),
        SignupEvent::Inserted(Ok(_)) => {
            match &state.marketing {
                Some(marketing) => {
                    let list = match marketing.customers_list_id {
                        Some(list) => list,
                        None => {
                            return SignupAction::Finish(SignupOutcome::Stored);
                        },
                    };
                    if customer.emails.len() == 0 {
                        return SignupAction::Finish(SignupOutcome::Stored);
                    }
                    let mut list_ids: Vec<u32> = Vec::new();
                    list_ids.push(list);
                    assert(list_ids@ =~= seq![list]);
                    SignupAction::RegisterContact {
                        api_key: marketing.api_key.clone(),
                        contact: create_contact_request(
                            list_ids,
                            &customer.id,
                            &customer.emails[0].address,
                        ),
                    }
                },
                None => SignupAction::Finish(SignupOutcome::Stored),
            }
        },
        SignupEvent::ContactRegistered(registered) => {
            if !registered {
                return SignupAction::Finish(SignupOutcome::ContactFailed);
            }
            if !state.enabled_email_integration || customer.emails.len() == 0 {
                return SignupAction::Finish(SignupOutcome::Stored);
            }
            match &state.marketing {
                Some(marketing) => {
                    if marketing.customers_list_id.is_none() {
                        return SignupAction::Finish(SignupOutcome::Stored);
                    }
                    SignupAction::KeepToken(
                        new_email_verification(
                            state,
                            marketing.api_key.clone(),
                            customer.emails[0].address.clone(),
                            customer.name.clone(),
                            "Verify Your Email Address To Start Using Test App",
                        ),
                    )
                },
                None => SignupAction::Finish(SignupOutcome::Stored),
            }
        },
        SignupEvent::TokenKept(email, kept) => match kept {
            StoreWrite::Done => SignupAction::SendEmail(email),
            StoreWrite::Failed => SignupAction::Finish(SignupOutcome::TokenNotStored),
            StoreWrite::Unreachable => SignupAction::Finish(SignupOutcome::StoreUnreachable),
        },
        SignupEvent::EmailSent(sent) => if sent {
            SignupAction::Finish(SignupOutcome::Stored)
        } else {
            SignupAction::Finish(SignupOutcome::EmailFailed)
        },
    }
}

/// How the last step of writing and announcing an added email address went.
#[derive(Debug, PartialEq, Eq)]
pub enum AddedEmailEvent {
    /// The address was handed to the repository.
    Written(Result<(), StorageError>),
    /// The verification token was handed to the session store; the email
    /// that carries it is still to be sent.
    TokenKept(SendEmailData, StoreWrite),
    /// The verification email was handed to the email provider, which took
    /// it or not.
    EmailSent(bool),
}

/// The next step of announcing an added email address.
#[derive(Debug, PartialEq, Eq)]
pub enum AddedEmailAction {
    /// Keep the verification token in the session store.
    KeepToken(EmailVerification),
    /// Send the verification email.
    SendEmail(SendEmailData),
    /// Nothing is left to do: answer with this outcome.
    Finish(VerificationOutcome),
}

/// Whether the announcement is over with the given outcome.
pub open spec fn ends(action: AddedEmailAction, outcome: VerificationOutcome) -> bool {
    action matches AddedEmailAction::Finish(o) && o == outcome
}

/// Whether an action is the next step for an added email address after an
/// event.
///
/// Once the address is written, a fresh verification token is kept in the
/// session store and then the email with its link is sent to the address.
/// Without a key for the email provider nothing can be sent. The first step
/// that fails ends the announcement with its failure.
pub open spec fn is_added_email_action(
    state: AppState,
    address: Seq<char>,
    name: Seq<char>,
    event: AddedEmailEvent,
    action: AddedEmailAction,
) -> bool {
    match event {
        AddedEmailEvent::Written(written) => if written is Err {
            ends(action, VerificationOutcome::NotWritten)
        } else if state.marketing is None {
            ends(action, VerificationOutcome::NotConfigured)
        } else {
            action matches AddedEmailAction::KeepToken(verification) && is_identifier(
                verification.token.token@,
                VERIFICATION_TOKEN_LENGTH,
            ) && is_verification_with(
                verification,
                state,
                state.marketing.unwrap().api_key@,
                address,
                name,
                added_email_subject(),
                verification.token.token@,
            )
        },
        AddedEmailEvent::TokenKept(email, kept) => match kept {
            StoreWrite::Done => action matches AddedEmailAction::SendEmail(data) && data@
                == email@,
            StoreWrite::Failed => ends(action, VerificationOutcome::TokenNotStored),
            StoreWrite::Unreachable => ends(action, VerificationOutcome::StoreUnreachable),
        },
        AddedEmailEvent::EmailSent(sent) => ends(
            action,
            if sent {
                VerificationOutcome::Sent
            } else {
                VerificationOutcome::EmailFailed
            },
        ),
    }
}

/// Decides the next step of announcing an added email address from how the
/// last step went. `name` is the customer's name, for the greeting.
pub fn email_added_next(state: &AppState, address: &str, name: &str, event: AddedEmailEvent) -> (action:
    AddedEmailAction)
    ensures
        is_added_email_action(*state, address@, name@, event, action),
{
    match event {
        AddedEmailEvent::Written(Err(_)) => AddedEmailAction::Finish(
            VerificationOutcome::NotWritten,
        ),
        AddedEmailEvent::Written(Ok(_)) => match &state.marketing {
            Some(marketing) => AddedEmailAction::KeepToken(
                new_email_verification(
                    state,
                    marketing.api_key.clone(),
                    address.to_string(),
                    name.to_string(),
                    "Verify Your New Email Address",
                ),
            ),
            None => AddedEmailAction::Finish(VerificationOutcome::NotConfigured),
        },
        AddedEmailEvent::TokenKept(email, kept) => match kept {
            StoreWrite::Done => AddedEmailAction::SendEmail(email),
            StoreWrite::Failed => AddedEmailAction::Finish(VerificationOutcome::TokenNotStored),
            StoreWrite::Unreachable => AddedEmailAction::Finish(
                VerificationOutcome::StoreUnreachable,
            ),
        },
        AddedEmailEvent::EmailSent(sent) => if sent {
            AddedEmailAction::Finish(VerificationOutcome::Sent)
        } else {
            AddedEmailAction::Finish(VerificationOutcome::EmailFailed)
        },
    }
}

} // verus!
