//! Customer records: sign-up, what a session may see of a record, and the
//! changes of name and password.

use vstd::prelude::*;
use crate::controllers::identity::{
    customer_missing,
    found_or_refused,
    is_new_session,
    sign_in_refusal,
};
use crate::controllers::scopes::{grants, has_scope, is_granted, SessionData, SessionScopes};
use crate::storage::{
    build_customer_filter,
    filter_matches,
    CustomerFilter,
    CustomerUpdate,
    CustomerUpdateView,
    SessionWrite,
    StorageError,
};
use crate::text::{byte_len, lowercase, same_text, to_lowercase};
use crate::types::customer::{
    well_formed,
    main_count,
    AuthProviders,
    Customer,
    CustomerType,
    CustomerView,
    Email,
    EmailView,
    Preferences,
    PreferencesView,
    PrivateSensitiveCustomer,
    PrivateSensitiveCustomerView,
};
use crate::types::incoming_requests::{
    CreateCustomerRecord,
    CustomerUpdateName,
    CustomerUpdatePassword,
    FetchCustomerByID,
    SignIn,
};
use crate::types::response::{
    refusal,
    reply_view,
    success,
    GenericResponse,
    GenericResponseView,
    HttpStatus,
    Reply,
    ReplyView,
    ResponseData,
    ResponseDataView,
};
use crate::types::subscription::{
    Slug,
    Subscription,
    SubscriptionFrequencyClass,
    SubscriptionView,
};
use crate::utilities::api_messages::{
    APIMessages,
    CustomerMessages,
    EmailMessages,
    InputMessages,
    MongoMessages,
    RedisMessages,
    TokenMessages,
};
use crate::utilities::helpers::{
    email_accepted,
    is_identifier,
    matches_pattern,
    name_accepted,
    parse_class,
    password_accepted,
    password_length_accepted,
    password_rejection,
    random_string,
    refuse,
    refuse_with,
    requested_class,
    sign_in_email_pattern,
    valid_email,
    valid_password,
};
use crate::utilities::password::{bcrypt_verifies, hash_password, verify_password};
use crate::utilities::token::{lemma_issued_token_verifies, verified_claims};

verus! {

/// The length of a customer's id.
pub const CUSTOMER_ID_LENGTH: usize = 30;

/// The length of the id of the subscription a customer starts with.
pub const FIRST_SUBSCRIPTION_ID_LENGTH: usize = 10;

/// The provider a sign-up is for: the one it names, in any case of letters,
/// and password sign-in if it names none that is known.
pub open spec fn signup_provider(provider: Seq<char>) -> AuthProviders {
    match AuthProviders::parse(lowercase(provider)) {
        Some(provider) => provider,
        None => AuthProviders::LEGACY,
    }
}

/// Why a sign-up is refused for what it holds, if it is.
pub open spec fn signup_input_refusal(payload: CreateCustomerRecord) -> Option<ReplyView> {
    if !payload.accepted_terms {
        Some(refusal(HttpStatus::BAD_REQUEST, CustomerMessages::NotAcceptedTerms.text()))
    } else if !name_accepted(payload.name@) {
        Some(refusal(HttpStatus::BAD_REQUEST, InputMessages::InvalidNameLength.text()))
    } else if !email_accepted(lowercase(payload.email@)) {
        Some(refusal(HttpStatus::BAD_REQUEST, EmailMessages::Invalid.text()))
    } else if signup_provider(payload.provider@) != AuthProviders::LEGACY {
        None
    } else if !password_accepted(payload.password@) {
        Some(refusal(HttpStatus::BAD_REQUEST, password_rejection(payload.password@).text()))
    } else if payload.password@ != payload.password_confirmation@ {
        Some(
            refusal(
                HttpStatus::BAD_REQUEST,
                CustomerMessages::PasswordConfirmationDoesNotMatch.text(),
            ),
        )
    } else if lowercase(payload.email@) == lowercase(payload.password@) {
        Some(
            refusal(HttpStatus::BAD_REQUEST, EmailMessages::EmailAndPasswordMustBeDifferent.text()),
        )
    } else {
        None
    }
}

/// Why a sign-up is refused for what the repository holds, or for the kind
/// of account it asks for, if it is.
pub open spec fn signup_record_refusal(
    payload: CreateCustomerRecord,
    lookup: Result<Option<Customer>, StorageError>,
) -> Option<ReplyView> {
    match lookup {
        Err(_) => Some(refusal(HttpStatus::INTERNAL_SERVER_ERROR, "error fetching customer"@)),
        Ok(Some(_)) => Some(refusal(HttpStatus::BAD_REQUEST, EmailMessages::Taken.text())),
        Ok(None) => if requested_class(payload.class@) is None {
            Some(refusal(HttpStatus::BAD_REQUEST, CustomerMessages::InvalidType.text()))
        } else {
            None
        },
    }
}

/// The subscription every customer starts with: the free plan, without
/// billing and without history.
pub open spec fn first_subscription(id: Seq<char>, now: Seq<char>) -> SubscriptionView {
    SubscriptionView {
        id,
        product_id: 0,
        variant_id: 0,
        slug: Slug::FREE,
        frequency: SubscriptionFrequencyClass::UNDEFINED,
        status: Seq::empty(),
        created_at: now,
        updated_at: now,
        starts_at: Seq::empty(),
        ends_at: Seq::empty(),
        renews_at: Seq::empty(),
        history_logs: Seq::empty(),
    }
}

/// Whether a record is what a sign-up creates at the time `now`, but for
/// what it stores for the password.
///
/// The id and the subscription's id are fresh identifiers. The one email
/// address is the sign-up's in lower case, it is the main one and is not
/// verified.
pub open spec fn is_new_record(
    customer: CustomerView,
    payload: CreateCustomerRecord,
    now: Seq<char>,
) -> bool {
    &&& is_identifier(customer.id, CUSTOMER_ID_LENGTH)
    &&& customer.name == payload.name@
    &&& Some(customer.class) == requested_class(payload.class@)
    &&& customer.emails == seq![
        EmailView { address: lowercase(payload.email@), verified: false, main: true },
    ]
    &&& customer.auth_provider == signup_provider(payload.provider@)
    &&& customer.backup_security_codes == Seq::<Seq<char>>::empty()
    &&& customer.preferences == PreferencesView {
        dark_mode: false,
        language: "en"@,
        notifications: true,
    }
    &&& is_identifier(customer.subscription.id, FIRST_SUBSCRIPTION_ID_LENGTH)
    &&& customer.subscription == first_subscription(customer.subscription.id, now)
    &&& customer.created_at == now
    &&& customer.updated_at == now
    &&& !customer.deleted
}

/// Whether a record is what a sign-up creates at the time `now`.
///
/// For password sign-in the stored hash is one that the password verifies
/// against; for any other provider nothing is stored.
pub open spec fn is_new_customer(
    customer: CustomerView,
    payload: CreateCustomerRecord,
    now: Seq<char>,
) -> bool {
    &&& is_new_record(customer, payload, now)
    &&& if customer.auth_provider == AuthProviders::LEGACY {
        bcrypt_verifies(payload.password@, customer.password) == Some(true)
    } else {
        customer.password == Seq::<char>::empty()
    }
}

/// What a sign-up stores for the password: the hash for password sign-in,
/// nothing for any other provider.
pub open spec fn stored_password(payload: CreateCustomerRecord, hashed: Option<Seq<char>>) -> Seq<
    char,
> {
    if signup_provider(payload.provider@) == AuthProviders::LEGACY && hashed is Some {
        hashed.unwrap()
    } else {
        Seq::empty()
    }
}

/// Why a sign-up is refused, if it is, given the hash of its password or
/// the news that there is none.
///
/// What the sign-up holds is judged first. For password sign-in the hash
/// comes next: without one the sign-up fails with status 500. Last come the
/// repository and the kind of account.
pub open spec fn signup_refusal(
    payload: CreateCustomerRecord,
    lookup: Result<Option<Customer>, StorageError>,
    hashed: Option<Seq<char>>,
) -> Option<ReplyView> {
    if signup_input_refusal(payload) is Some {
        signup_input_refusal(payload)
    } else if signup_provider(payload.provider@) == AuthProviders::LEGACY && hashed is None {
        Some(
            refusal(
                HttpStatus::INTERNAL_SERVER_ERROR,
                CustomerMessages::ErrorHashingPassword.text(),
            ),
        )
    } else {
        signup_record_refusal(payload, lookup)
    }
}

/// Reads the provider a sign-up is for.
fn read_provider(provider: &str) -> (r: AuthProviders)
    ensures
        r == signup_provider(provider@),
{
    let folded = to_lowercase(provider);
    match AuthProviders::from_str(folded.as_str()) {
        Ok(provider) => provider,
        Err(_) => AuthProviders::LEGACY,
    }
}

/// Validates what a sign-up holds and gives its email address in lower
/// case.
fn validate_signup(payload: &CreateCustomerRecord) -> (r: Result<(String, AuthProviders), Reply>)
    ensures
        match r {
            Ok((email, provider)) => signup_input_refusal(*payload) is None && email@
                == lowercase(payload.email@) && provider == signup_provider(payload.provider@),
            Err(reply) => signup_input_refusal(*payload) == Some(reply_view(reply)),
        },
{
    if !payload.accepted_terms {
        return Err(
            refuse(
                HttpStatus::BAD_REQUEST,
                APIMessages::Customer(CustomerMessages::NotAcceptedTerms),
            ),
        );
    }
    let provider = read_provider(payload.provider.as_str());
    let name_length = byte_len(payload.name.as_str());
    if name_length < 2 || name_length > 25 {
        return Err(
            refuse(HttpStatus::BAD_REQUEST, APIMessages::Input(InputMessages::InvalidNameLength)),
        );
    }
    let email = to_lowercase(payload.email.as_str());
    let _ = valid_email(email.as_str())?;
    if provider == AuthProviders::LEGACY {
        let _ = valid_password(payload.password.as_str())?;
        if !same_text(payload.password.as_str(), payload.password_confirmation.as_str()) {
            return Err(
                refuse(
                    HttpStatus::BAD_REQUEST,
                    APIMessages::Customer(CustomerMessages::PasswordConfirmationDoesNotMatch),
                ),
            );
        }
        let folded_password = to_lowercase(payload.password.as_str());
        if same_text(email.as_str(), folded_password.as_str()) {
            return Err(
                refuse(
                    HttpStatus::BAD_REQUEST,
                    APIMessages::Email(EmailMessages::EmailAndPasswordMustBeDifferent),
                ),
            );
        }
    }
    Ok((email, provider))
}

/// The filter that tells whether the email address of a sign-up is taken, or
/// the answer to a sign-up that is refused for what it holds.
pub fn create_customer_record_filter(payload: &CreateCustomerRecord) -> (r: Result<
    CustomerFilter,
    Reply,
>)
    ensures
        match r {
            Ok(filter) => signup_input_refusal(*payload) is None && filter.email@ == lowercase(
                payload.email@,
            ) && filter.id@ == Seq::<char>::empty(),
            Err(reply) => signup_input_refusal(*payload) == Some(reply_view(reply)),
        },
{
    let (email, _) = validate_signup(payload)?;
    let filter = build_customer_filter("", email.as_str());
    proof {
        reveal_strlit("");
        assert(filter.id@ =~= Seq::<char>::empty());
    }
    Ok(filter)
}

/// Builds the record of a sign-up from its parts.
pub fn new_customer(
    payload: &CreateCustomerRecord,
    id: String,
    subscription_id: String,
    email: String,
    provider: AuthProviders,
    class: CustomerType,
    password: String,
    now: &str,
) -> (customer: Customer)
    ensures
        customer.id@ == id@,
        customer.name@ == payload.name@,
        customer.class == class,
        customer.emails.deep_view() == seq![
            EmailView { address: email@, verified: false, main: true },
        ],
        customer.auth_provider == provider,
        customer.password@ == password@,
        customer.backup_security_codes.deep_view() == Seq::<Seq<char>>::empty(),
        customer.preferences@ == (PreferencesView {
            dark_mode: false,
            language: "en"@,
            notifications: true,
        }),
        customer.subscription@ == first_subscription(subscription_id@, now@),
        customer.created_at@ == now@,
        customer.updated_at@ == now@,
        !customer.deleted,
        well_formed(customer@),
{
    let mut emails: Vec<Email> = Vec::new();
    emails.push(Email { address: email, verified: false, main: true });
    let subscription = Subscription {
        id: subscription_id,
        product_id: 0,
        variant_id: 0,
        slug: Slug::FREE,
        frequency: SubscriptionFrequencyClass::UNDEFINED,
        status: String::new(),
        created_at: now.to_string(),
        updated_at: now.to_string(),
        starts_at: String::new(),
        ends_at: String::new(),
        renews_at: String::new(),
        history_logs: Vec::new(),
    };
    let customer = Customer {
        id,
        name: payload.name.clone(),
        class,
        emails,
        auth_provider: provider,
        password,
        backup_security_codes: Vec::new(),
        preferences: Preferences {
            dark_mode: false,
            language: "en".to_string(),
            notifications: true,
        },
        subscription,
        created_at: now.to_string(),
        updated_at: now.to_string(),
        deleted: false,
    };
    proof {
        let only = EmailView { address: email@, verified: false, main: true };
        assert(customer.emails.deep_view() =~= seq![only]);
        assert(customer.backup_security_codes.deep_view() =~= Seq::<Seq<char>>::empty());
        assert(customer.subscription.history_logs.deep_view() =~= Seq::empty());
        assert(seq![only].drop_last() =~= Seq::<EmailView>::empty());
        assert(main_count(seq![only]) == 1) by {
            reveal_with_fuel(main_count, 2);
        }
    }
    customer
}

/// Creates the record of a customer who signs up at the time `now`.
///
/// The sign-up is refused for what it holds (terms, name, email address and,
/// for password sign-in, the password and its confirmation), if the email
/// address is taken or the repository failed, and for an unknown kind of
/// account. The email address is put in lower case before anything else is
/// done with it. For password sign-in the password is hashed; a failure of the
/// hashing is answered with status 500.
pub fn create_customer_record(
    payload: &CreateCustomerRecord,
    lookup: &Result<Option<Customer>, StorageError>,
    now: &str,
) -> (r: Result<Customer, Reply>)
    ensures
        match r {
            Ok(customer) => {
                &&& signup_input_refusal(*payload) is None
                &&& signup_record_refusal(*payload, *lookup) is None
                &&& is_new_customer(customer@, *payload, now@)
                &&& well_formed(customer@)
            },
            Err(reply) => match signup_input_refusal(*payload) {
                Some(refused) => reply_view(reply) == refused,
                None => {
                    ||| signup_record_refusal(*payload, *lookup) == Some(reply_view(reply))
                    ||| signup_provider(payload.provider@) == AuthProviders::LEGACY && reply_view(
                        reply,
                    ) == refusal(
                        HttpStatus::INTERNAL_SERVER_ERROR,
                        CustomerMessages::ErrorHashingPassword.text(),
                    )
                },
            },
        },
        signup_input_refusal(*payload) is Some || signup_record_refusal(*payload, *lookup)
            is Some ==> r is Err,
{
    let hashed = match validate_signup(payload) {
        Ok((_, provider)) => if provider == AuthProviders::LEGACY {
            match hash_password(payload.password.as_str()) {
                Ok(hash) => Some(hash),
                Err(_) => None,
            }
        } else {
            None
        },
        Err(_) => None,
    };
    create_customer_record_with_hash(payload, lookup, now, hashed)
}

/// Creates the record of a customer who signs up at the time `now`, given
/// the hash of the password, or none where none was made.
///
/// The sign-up is refused exactly as [`signup_refusal`] says. Otherwise the
/// record is the one of the sign-up; for password sign-in it stores the given
/// hash, for any other provider nothing.
pub fn create_customer_record_with_hash(
    payload: &CreateCustomerRecord,
    lookup: &Result<Option<Customer>, StorageError>,
    now: &str,
    hashed: Option<String>,
) -> (r: Result<Customer, Reply>)
    ensures
        match r {
            Ok(customer) => {
                &&& signup_refusal(*payload, *lookup, hashed.deep_view()) is None
                &&& is_new_record(customer@, *payload, now@)
                &&& customer.password@ == stored_password(*payload, hashed.deep_view())
                &&& well_formed(customer@)
            },
            Err(reply) => signup_refusal(*payload, *lookup, hashed.deep_view()) == Some(
                reply_view(reply),
            ),
        },
{
    let (email, provider) = validate_signup(payload)?;
    let password = if provider == AuthProviders::LEGACY {
        match hashed {
            Some(hash) => hash,
            None => {
                return Err(
                    refuse(
                        HttpStatus::INTERNAL_SERVER_ERROR,
                        APIMessages::Customer(CustomerMessages::ErrorHashingPassword),
                    ),
                );
            },
        }
    } else {
        String::new()
    };
    match lookup {
        Err(_) => {
            return Err(refuse_with(HttpStatus::INTERNAL_SERVER_ERROR, "error fetching customer"));
        },
        Ok(Some(_)) => {
            return Err(refuse(HttpStatus::BAD_REQUEST, APIMessages::Email(EmailMessages::Taken)));
        },
        Ok(None) => {},
    }
    let class = parse_class(payload.class.as_str())?;
    let subscription_id = random_string(FIRST_SUBSCRIPTION_ID_LENGTH);
    let id = random_string(CUSTOMER_ID_LENGTH);
    Ok(new_customer(payload, id, subscription_id, email, provider, class, password, now))
}

/// A customer who signed up is found again at sign-in under the address of
/// the sign-up, however its letters are cased either time: the record holds
/// the address in lower case, and the sign-in looks for it in lower case.
pub proof fn lemma_signed_up_customer_found(
    customer: Customer,
    signup: CreateCustomerRecord,
    signed_up_at: Seq<char>,
    sign_in_email: Seq<char>,
)
    requires
        is_new_customer(customer@, signup, signed_up_at),
        lowercase(sign_in_email) == lowercase(signup.email@),
    ensures
        filter_matches(Seq::<char>::empty(), lowercase(sign_in_email), customer@),
{
    assert(customer@.emails[0].address == lowercase(sign_in_email));
}

/// A customer who signed up with a password can sign in with it, and the
/// token of the session that begins verifies at every second up to its expiry
/// with the customer's id as its subject.
///
/// `customer` is the record that the sign-up created, `write` the session
/// that the sign-in began at the second `now`; the sign-in gives an email
/// address of the right shape and the password of the sign-up, and its lookup
/// found the record.
pub proof fn lemma_signup_then_sign_in(
    customer: Customer,
    signup: CreateCustomerRecord,
    signed_up_at: Seq<char>,
    sign_in: SignIn,
    write: SessionWrite,
    issuer: Seq<char>,
    key: Seq<u8>,
    token_ttl: u64,
    now: u64,
    later: u64,
)
    requires
        is_new_customer(customer@, signup, signed_up_at),
        signup_provider(signup.provider@) == AuthProviders::LEGACY,
        sign_in.password@ == signup.password@,
        matches_pattern(sign_in_email_pattern(), sign_in.email@),
        is_new_session(write, customer.id@, issuer, key, token_ttl, now),
        later <= now + token_ttl,
    ensures
        sign_in_refusal(sign_in, Ok::<Option<Customer>, StorageError>(Some(customer))) is None,
        verified_claims(write.token@, key, later) matches Ok(claims) && claims.sub
            == customer.id@,
{
    lemma_issued_token_verifies(
        write.token@,
        issuer,
        customer.id@,
        seq![SessionScopes::TotalAccess],
        now,
        token_ttl,
        key,
        later,
    );
}

/// What became of a sign-up after its record was built.
#[derive(Clone, Copy, Debug, PartialEq, Eq, Structural)]
pub enum SignupOutcome {
    /// The record is stored and every notification went out.
    Stored,
    /// The repository did not take the record.
    InsertFailed,
    /// The marketing platform did not take the contact.
    ContactFailed,
    /// The session store could not be reached for the verification token.
    StoreUnreachable,
    /// The session store did not take the verification token.
    TokenNotStored,
    /// The verification email was not sent.
    EmailFailed,
}

/// The answer to a sign-up whose record was built.
pub open spec fn signup_reply(customer: CustomerView, outcome: SignupOutcome) -> ReplyView {
    match outcome {
        SignupOutcome::Stored => (
            HttpStatus::CREATED,
            GenericResponseView {
                message: CustomerMessages::Created.text(),
                data: ResponseDataView::Customer(customer),
                exit_code: 0,
            },
        ),
        SignupOutcome::InsertFailed => refusal(
            HttpStatus::INTERNAL_SERVER_ERROR,
            MongoMessages::ErrorInserting.text(),
        ),
        SignupOutcome::ContactFailed => refusal(
            HttpStatus::INTERNAL_SERVER_ERROR,
            CustomerMessages::ErrorRegisteringCustomerInMarketingPlatform.text(),
        ),
        SignupOutcome::StoreUnreachable => refusal(
            HttpStatus::INTERNAL_SERVER_ERROR,
            RedisMessages::FailedToConnect.text(),
        ),
        SignupOutcome::TokenNotStored => refusal(
            HttpStatus::INTERNAL_SERVER_ERROR,
            RedisMessages::ErrorSettingKey.text(),
        ),
        SignupOutcome::EmailFailed => refusal(
            HttpStatus::INTERNAL_SERVER_ERROR,
            EmailMessages::ErrorSendingVerificationEmail.text(),
        ),
    }
}

/// Answers a sign-up whose record was built: the record, with status 201, if
/// it was stored and announced; status 500 and the step that failed
/// otherwise.
pub fn customer_created_reply(customer: Customer, outcome: SignupOutcome) -> (r: Reply)
    ensures
        reply_view(r) == signup_reply(customer@, outcome),
{
    match outcome {
        SignupOutcome::Stored => (
            HttpStatus::CREATED,
            GenericResponse {
                message: CustomerMessages::Created.to_string(),
                data: ResponseData::Customer(customer),
                exit_code: 0,
            },
        ),
        SignupOutcome::InsertFailed => refuse(
            HttpStatus::INTERNAL_SERVER_ERROR,
            APIMessages::Mongo(MongoMessages::ErrorInserting),
        ),
        SignupOutcome::ContactFailed => refuse(
            HttpStatus::INTERNAL_SERVER_ERROR,
            APIMessages::Customer(CustomerMessages::ErrorRegisteringCustomerInMarketingPlatform),
        ),
        SignupOutcome::StoreUnreachable => refuse(
            HttpStatus::INTERNAL_SERVER_ERROR,
            APIMessages::Redis(RedisMessages::FailedToConnect),
        ),
        SignupOutcome::TokenNotStored => refuse(
            HttpStatus::INTERNAL_SERVER_ERROR,
            APIMessages::Redis(RedisMessages::ErrorSettingKey),
        ),
        SignupOutcome::EmailFailed => refuse(
            HttpStatus::INTERNAL_SERVER_ERROR,
            APIMessages::Email(EmailMessages::ErrorSendingVerificationEmail),
        ),
    }
}

/// What a session with the given scopes may see of a customer. Total access
/// shows everything. Otherwise the id, the email addresses and the
/// subscription each have a scope of their own, and name, kind, preferences,
/// dates and the deletion mark are shown together or not at all.
pub open spec fn visible_profile(
    customer: CustomerView,
    id: Seq<char>,
    scopes: Seq<SessionScopes>,
) -> PrivateSensitiveCustomerView {
    let all = scopes.contains(SessionScopes::TotalAccess);
    let profile = all || scopes.contains(SessionScopes::ViewPublicProfile);
    PrivateSensitiveCustomerView {
        id: if all || scopes.contains(SessionScopes::ViewPublicID) {
            Some(id)
        } else {
            None
        },
        name: if profile {
            Some(customer.name)
        } else {
            None
        },
        class: if profile {
            Some(customer.class)
        } else {
            None
        },
        emails: if all || scopes.contains(SessionScopes::ViewEmailAddresses) {
            Some(customer.emails)
        } else {
            None
        },
        auth_provider: Some(customer.auth_provider),
        preferences: if profile {
            Some(customer.preferences)
        } else {
            None
        },
        subscription: if all || scopes.contains(SessionScopes::ViewSubscription) {
            Some(customer.subscription)
        } else {
            None
        },
        created_at: if profile {
            Some(customer.created_at)
        } else {
            None
        },
        updated_at: if profile {
            Some(customer.updated_at)
        } else {
            None
        },
        deleted: if profile {
            Some(customer.deleted)
        } else {
            None
        },
    }
}

/// Hides from a customer record what the scopes of a session do not show.
pub fn filter_profile(customer: Customer, id: String, scopes: &Vec<SessionScopes>) -> (r:
    PrivateSensitiveCustomer)
    ensures
        r@ == visible_profile(customer@, id@, scopes@),
{
    let all = has_scope(scopes, SessionScopes::TotalAccess);
    let profile = all || has_scope(scopes, SessionScopes::ViewPublicProfile);
    let show_id = all || has_scope(scopes, SessionScopes::ViewPublicID);
    let show_emails = all || has_scope(scopes, SessionScopes::ViewEmailAddresses);
    let show_subscription = all || has_scope(scopes, SessionScopes::ViewSubscription);
    PrivateSensitiveCustomer {
        id: if show_id {
            Some(id)
        } else {
            None
        },
        name: if profile {
            Some(customer.name)
        } else {
            None
        },
        class: if profile {
            Some(customer.class)
        } else {
            None
        },
        emails: if show_emails {
            Some(customer.emails)
        } else {
            None
        },
        auth_provider: Some(customer.auth_provider),
        preferences: if profile {
            Some(customer.preferences)
        } else {
            None
        },
        subscription: if show_subscription {
            Some(customer.subscription)
        } else {
            None
        },
        created_at: if profile {
            Some(customer.created_at)
        } else {
            None
        },
        updated_at: if profile {
            Some(customer.updated_at)
        } else {
            None
        },
        deleted: if profile {
            Some(customer.deleted)
        } else {
            None
        },
    }
}

/// The filter that finds the customer to fetch, or the answer to a request
/// that names none.
pub fn fetch_customer_filter(params: &FetchCustomerByID) -> (r: Result<CustomerFilter, Reply>)
    ensures
        match r {
            Ok(filter) => params.id matches Some(id) && filter.id@ == id@ && filter.email@
                == Seq::<char>::empty(),
            Err(reply) => params.id is None && reply_view(reply) == refusal(
                HttpStatus::BAD_REQUEST,
                CustomerMessages::NotFoundByID.text(),
            ),
        },
{
    match &params.id {
        Some(id) => {
            let filter = build_customer_filter(id.as_str(), "");
            proof {
                reveal_strlit("");
                assert(filter.email@ =~= Seq::<char>::empty());
            }
            Ok(filter)
        },
        None => Err(
            refuse(HttpStatus::BAD_REQUEST, APIMessages::Customer(CustomerMessages::NotFoundByID)),
        ),
    }
}

/// The answer to a request for a customer record.
pub open spec fn fetch_reply(
    session: SessionData,
    params: FetchCustomerByID,
    lookup: Result<Option<Customer>, StorageError>,
) -> ReplyView {
    match params.id {
        None => refusal(HttpStatus::BAD_REQUEST, CustomerMessages::NotFoundByID.text()),
        Some(id) => match lookup {
            Ok(Some(customer)) => (
                HttpStatus::OK,
                GenericResponseView {
                    message: CustomerMessages::Found.text(),
                    data: ResponseDataView::Profile(
                        visible_profile(customer@, id@, session.scopes@),
                    ),
                    exit_code: 0,
                },
            ),
            _ => customer_missing(lookup).unwrap(),
        },
    }
}

/// Answers a request for a customer record with what the session may see of
/// it.
pub fn fetch_customer_record_by_id(
    session: &SessionData,
    params: FetchCustomerByID,
    lookup: Result<Option<Customer>, StorageError>,
) -> (r: Reply)
    ensures
        reply_view(r) == fetch_reply(*session, params, lookup),
{
    let id = match params.id {
        Some(id) => id,
        None => {
            return refuse(
                HttpStatus::BAD_REQUEST,
                APIMessages::Customer(CustomerMessages::NotFoundByID),
            );
        },
    };
    let customer = match lookup {
        Err(_) => {
            return refuse_with(HttpStatus::INTERNAL_SERVER_ERROR, "error fetching customer");
        },
        Ok(None) => {
            return refuse(
                HttpStatus::NOT_FOUND,
                APIMessages::Customer(CustomerMessages::NotFound),
            );
        },
        Ok(Some(customer)) => customer,
    };
    (
        HttpStatus::OK,
        GenericResponse {
            message: CustomerMessages::Found.to_string(),
            data: ResponseData::Profile(filter_profile(customer, id, &session.scopes)),
            exit_code: 0,
        },
    )
}

/// A write to a customer record and the filter that finds the record.
pub type Write = (CustomerFilter, CustomerUpdate);

/// The answer to a session that lacks the scopes for what it asks.
pub open spec fn not_allowed() -> ReplyView {
    refusal(HttpStatus::UNAUTHORIZED, TokenMessages::NotAllowedScopesToPerformAction.text())
}

/// Why a change of name is refused, if it is.
pub open spec fn name_refusal(session: SessionData, payload: CustomerUpdateName) -> Option<
    ReplyView,
> {
    if !grants(session.scopes@, seq![SessionScopes::UpdateName]) {
        Some(not_allowed())
    } else if !name_accepted(payload.name@) {
        Some(refusal(HttpStatus::BAD_REQUEST, InputMessages::InvalidNameLength.text()))
    } else {
        None
    }
}

/// Whether the session's scopes open an endpoint that asks for one scope.
fn allows(session: &SessionData, scope: SessionScopes) -> (r: bool)
    ensures
        r == grants(session.scopes@, seq![scope]),
{
    let mut required: Vec<SessionScopes> = Vec::new();
    required.push(scope);
    assert(required@ =~= seq![scope]);
    is_granted(&session.scopes, &required)
}

/// Changes the name of the session's customer at the time `now`.
///
/// The session must hold the scope to update the name, or total access, and
/// the name must be 2 to 25 bytes long.
pub fn update_name(session: &SessionData, payload: &CustomerUpdateName, now: &str) -> (r: Result<
    Write,
    Reply,
>)
    ensures
        match r {
            Ok(write) => {
                &&& name_refusal(*session, *payload) is None
                &&& write.0.id@ == session.customer_id@
                &&& write.0.email@ == Seq::<char>::empty()
                &&& write.1@ == (CustomerUpdateView::Name {
                    name: payload.name@,
                    updated_at: now@,
                })
            },
            Err(reply) => name_refusal(*session, *payload) == Some(reply_view(reply)),
        },
{
    if !allows(session, SessionScopes::UpdateName) {
        return Err(
            refuse(
                HttpStatus::UNAUTHORIZED,
                APIMessages::Token(TokenMessages::NotAllowedScopesToPerformAction),
            ),
        );
    }
    let length = byte_len(payload.name.as_str());
    if length < 2 || length > 25 {
        return Err(
            refuse(HttpStatus::BAD_REQUEST, APIMessages::Input(InputMessages::InvalidNameLength)),
        );
    }
    let filter = build_customer_filter(session.customer_id.as_str(), "");
    proof {
        reveal_strlit("");
        assert(filter.email@ =~= Seq::<char>::empty());
    }
    Ok((filter, CustomerUpdate::Name { name: payload.name.clone(), updated_at: now.to_string() }))
}

/// Why a change of password is refused before the new password is hashed,
/// if it is.
pub open spec fn password_input_refusal(
    session: SessionData,
    payload: CustomerUpdatePassword,
    lookup: Result<Option<Customer>, StorageError>,
) -> Option<ReplyView> {
    if !grants(session.scopes@, seq![SessionScopes::TotalAccess]) {
        Some(not_allowed())
    } else if customer_missing(lookup) is Some {
        customer_missing(lookup)
    } else if !password_length_accepted(payload.old_password@) {
        Some(refusal(HttpStatus::BAD_REQUEST, InputMessages::InvalidOldPasswordLength.text()))
    } else if !password_accepted(payload.new_password@) {
        Some(refusal(HttpStatus::BAD_REQUEST, password_rejection(payload.new_password@).text()))
    } else if payload.new_password@ == payload.old_password@ {
        Some(
            refusal(
                HttpStatus::BAD_REQUEST,
                InputMessages::NewPasswordAndOldPasswordMustBeDifferent.text(),
            ),
        )
    } else if payload.new_password@ != payload.new_password_confirmation@ {
        Some(
            refusal(
                HttpStatus::BAD_REQUEST,
                InputMessages::NewPasswordConfirmationMustMatch.text(),
            ),
        )
    } else {
        None
    }
}

/// Why a change of password is refused for the old password, if it is.
pub open spec fn old_password_refusal(old_password: Seq<char>, stored_hash: Seq<char>) -> Option<
    ReplyView,
> {
    match bcrypt_verifies(old_password, stored_hash) {
        Some(true) => None,
        Some(false) => Some(
            refusal(HttpStatus::UNAUTHORIZED, CustomerMessages::IncorrectPassword.text()),
        ),
        None => Some(
            refusal(
                HttpStatus::INTERNAL_SERVER_ERROR,
                CustomerMessages::ErrorVerifyingPassword.text(),
            ),
        ),
    }
}

/// Changes the password of the session's customer at the time `now`.
///
/// The session must hold total access and its customer must exist. The old
/// password must be 8 to 100 bytes long, the new one must be a valid
/// password, differ from the old one and equal its confirmation. The new
/// password is hashed; a failure of the hashing is answered with status 500.
/// Last, the old password must be the one the stored hash was made of.
pub fn update_password(
    session: &SessionData,
    payload: &CustomerUpdatePassword,
    lookup: &Result<Option<Customer>, StorageError>,
    now: &str,
) -> (r: Result<Write, Reply>)
    ensures
        match r {
            Ok(write) => {
                &&& password_input_refusal(*session, *payload, *lookup) is None
                &&& *lookup matches Ok(Some(customer))
                &&& old_password_refusal(payload.old_password@, customer.password@) is None
                &&& write.0.id@ == session.customer_id@
                &&& write.0.email@ == Seq::<char>::empty()
                &&& write.1@ matches CustomerUpdateView::Password {
                    password,
                    updated_at,
                }
                &&& bcrypt_verifies(payload.new_password@, password) == Some(true)
                &&& updated_at == now@
            },
            Err(reply) => match password_input_refusal(*session, *payload, *lookup) {
                Some(refused) => reply_view(reply) == refused,
                None => {
                    ||| reply_view(reply) == refusal(
                        HttpStatus::INTERNAL_SERVER_ERROR,
                        CustomerMessages::ErrorHashingPassword.text(),
                    )
                    ||| *lookup matches Ok(Some(customer)) && old_password_refusal(
                        payload.old_password@,
                        customer.password@,
                    ) == Some(reply_view(reply))
                },
            },
        },
        password_input_refusal(*session, *payload, *lookup) is Some ==> r is Err,
        *lookup matches Ok(Some(customer)) && old_password_refusal(
            payload.old_password@,
            customer.password@,
        ) is Some ==> r is Err,
{
    let hashed = match checked_password_change(session, payload, lookup) {
        Ok(_) => match hash_password(payload.new_password.as_str()) {
            Ok(hash) => Some(hash),
            Err(_) => None,
        },
        Err(_) => None,
    };
    update_password_with_hash(session, payload, lookup, now, hashed)
}

/// Judges a change of password by what can be judged before the new
/// password is hashed, and gives the customer whose password it is.
fn checked_password_change<'a>(
    session: &SessionData,
    payload: &CustomerUpdatePassword,
    lookup: &'a Result<Option<Customer>, StorageError>,
) -> (r: Result<&'a Customer, Reply>)
    ensures
        match r {
            Ok(customer) => password_input_refusal(*session, *payload, *lookup) is None
                && *lookup == Ok::<Option<Customer>, StorageError>(Some(*customer)),
            Err(reply) => password_input_refusal(*session, *payload, *lookup) == Some(
                reply_view(reply),
            ),
        },
{
    if !allows(session, SessionScopes::TotalAccess) {
        return Err(
            refuse(
                HttpStatus::UNAUTHORIZED,
                APIMessages::Token(TokenMessages::NotAllowedScopesToPerformAction),
            ),
        );
    }
    let customer = found_or_refused(lookup)?;
    let old_length = byte_len(payload.old_password.as_str());
    if old_length < 8 || old_length > 100 {
        return Err(
            refuse(
                HttpStatus::BAD_REQUEST,
                APIMessages::Input(InputMessages::InvalidOldPasswordLength),
            ),
        );
    }
    let _ = valid_password(payload.new_password.as_str())?;
    if same_text(payload.new_password.as_str(), payload.old_password.as_str()) {
        return Err(
            refuse(
                HttpStatus::BAD_REQUEST,
                APIMessages::Input(InputMessages::NewPasswordAndOldPasswordMustBeDifferent),
            ),
        );
    }
    if !same_text(payload.new_password.as_str(), payload.new_password_confirmation.as_str()) {
        return Err(
            refuse(
                HttpStatus::BAD_REQUEST,
                APIMessages::Input(InputMessages::NewPasswordConfirmationMustMatch),
            ),
        );
    }
    Ok(customer)
}

/// Why a change of password is refused, if it is, given the hash of the new
/// password or the news that there is none.
///
/// What can be judged before the hashing is judged first. Without a hash the
/// change fails with status 500. Last, the old password must be the one the
/// stored hash was made of.
pub open spec fn password_change_refusal(
    session: SessionData,
    payload: CustomerUpdatePassword,
    lookup: Result<Option<Customer>, StorageError>,
    hashed: Option<Seq<char>>,
) -> Option<ReplyView> {
    if password_input_refusal(session, payload, lookup) is Some {
        password_input_refusal(session, payload, lookup)
    } else if hashed is None {
        Some(
            refusal(
                HttpStatus::INTERNAL_SERVER_ERROR,
                CustomerMessages::ErrorHashingPassword.text(),
            ),
        )
    } else {
        match lookup {
            Ok(Some(customer)) => old_password_refusal(
                payload.old_password@,
                customer.password@,
            ),
            _ => None,
        }
    }
}

/// Changes the password of the session's customer at the time `now`, given
/// the hash of the new password, or none if the hashing failed.
///
/// The change is refused exactly as [`password_change_refusal`] says.
/// Otherwise the given hash is written to the record of the session's
/// customer.
pub fn update_password_with_hash(
    session: &SessionData,
    payload: &CustomerUpdatePassword,
    lookup: &Result<Option<Customer>, StorageError>,
    now: &str,
    hashed: Option<String>,
) -> (r: Result<Write, Reply>)
    ensures
        match r {
            Ok(write) => {
                &&& password_change_refusal(*session, *payload, *lookup, hashed.deep_view())
                    is None
                &&& hashed matches Some(hash)
                &&& write.0.id@ == session.customer_id@
                &&& write.0.email@ == Seq::<char>::empty()
                &&& write.1@ == (CustomerUpdateView::Password {
                    password: hash@,
                    updated_at: now@,
                })
            },
            Err(reply) => password_change_refusal(*session, *payload, *lookup, hashed.deep_view())
                == Some(reply_view(reply)),
        },
{
    let customer = checked_password_change(session, payload, lookup)?;
    let hash = match hashed {
        Some(hash) => hash,
        None => {
            return Err(
                refuse(
                    HttpStatus::INTERNAL_SERVER_ERROR,
                    APIMessages::Customer(CustomerMessages::ErrorHashingPassword),
                ),
            );
        },
    };
    match verify_password(payload.old_password.as_str(), customer.password.as_str()) {
        Ok(is_valid) => {
            if !is_valid {
                return Err(
                    refuse(
                        HttpStatus::UNAUTHORIZED,
                        APIMessages::Customer(CustomerMessages::IncorrectPassword),
                    ),
                );
            }
        },
        Err(_) => {
            return Err(
                refuse(
                    HttpStatus::INTERNAL_SERVER_ERROR,
                    APIMessages::Customer(CustomerMessages::ErrorVerifyingPassword),
                ),
            );
        },
    }
    let filter = build_customer_filter(session.customer_id.as_str(), "");
    proof {
        reveal_strlit("");
        assert(filter.email@ =~= Seq::<char>::empty());
    }
    Ok((filter, CustomerUpdate::Password { password: hash, updated_at: now.to_string() }))
}

/// Answers a write to a customer record: the given message, with status
/// 200, if the repository took it; status 500 otherwise.
pub fn update_reply(written: &Result<(), StorageError>, done: CustomerMessages) -> (r: Reply)
    ensures
        written is Ok ==> reply_view(r) == (HttpStatus::OK, success(done.text())),
        written is Err ==> reply_view(r) == refusal(
            HttpStatus::INTERNAL_SERVER_ERROR,
            "error updating record in database"@,
        ),
{
    match written {
        Ok(_) => (HttpStatus::OK, GenericResponse::success(done.to_string())),
        Err(_) => refuse_with(
            HttpStatus::INTERNAL_SERVER_ERROR,
            "error updating record in database",
        ),
    }
}

} // verus!
