//! The catalogue of machine-readable messages that responses carry.
//!
//! Every message has one fixed text, given by `text` and produced by `to_string`.

use vstd::prelude::*;

verus! {

/// Any message of the API: a generic one, or one of a family.
#[derive(Clone, Copy, Debug, PartialEq, Eq, Structural)]
pub enum APIMessages {
    InternalServerError,
    BadRequest,
    Unauthorized,
    NotFound,
    Forbidden,
    Conflict,
    UnprocessableEntity,
    TooManyRequests,
    ServiceUnavailable,
    GatewayTimeout,
    Token(TokenMessages),
    Input(InputMessages),
    Email(EmailMessages),
    Mongo(MongoMessages),
    Redis(RedisMessages),
    Customer(CustomerMessages),
}

/// Messages about session tokens and sign-in providers.
#[derive(Clone, Copy, Debug, PartialEq, Eq, Structural)]
pub enum TokenMessages {
    Missing,
    NotSigningKeyFound,
    Created,
    ErrorCreating,
    Expired,
    ErrorValidating,
    Renewed,
    ErrorRenewing,
    NotAllowedScopesToPerformAction,
    OnlyLegacyProvider,
    OnlyGoogleProvider,
    ErrorFetchingUserFromGoogle,
    ErrorRequestingGoogleToken,
    NotAuthorizationHeader,
    ErrorParsingToken,
}

/// Messages about rejected request fields.
#[derive(Clone, Copy, Debug, PartialEq, Eq, Structural)]
pub enum InputMessages {
    InvalidNameLength,
    InvalidOldPasswordLength,
    InvalidNewPasswordLength,
    PasswordMustHaveAtLeastOneLetterAndOneNumber,
    NewPasswordAndOldPasswordMustBeDifferent,
    NewPasswordConfirmationMustMatch,
}

/// Messages about customer records.
#[derive(Clone, Copy, Debug, PartialEq, Eq, Structural)]
pub enum CustomerMessages {
    Created,
    Found,
    NotFound,
    NotAcceptedTerms,
    InvalidType,
    PasswordConfirmationDoesNotMatch,
    IncorrectPassword,
    ErrorVerifyingPassword,
    ErrorHashingPassword,
    ErrorRegisteringCustomerInMarketingPlatform,
    NameUpdated,
    PasswordUpdated,
    EmailAdded,
    NotFoundByID,
}

/// Messages about the document store.
#[derive(Clone, Copy, Debug, PartialEq, Eq, Structural)]
pub enum MongoMessages {
    ErrorInserting,
}

/// Messages about the session store.
#[derive(Clone, Copy, Debug, PartialEq, Eq, Structural)]
pub enum RedisMessages {
    FailedToConnect,
    ErrorFetching,
    ErrorDeleting,
    ErrorSettingKey,
}

/// Messages about email addresses.
#[derive(Clone, Copy, Debug, PartialEq, Eq, Structural)]
pub enum EmailMessages {
    Verified,
    Invalid,
    Taken,
    TakenByOtherCustomer,
    TakenByYou,
    EmailAndPasswordMustBeDifferent,
    ErrorSendingVerificationEmail,
    MaxEmailsReached,
}

impl APIMessages {
    /// The text of the message.
    pub open spec fn text(self) -> Seq<char> {
        match self {
            APIMessages::InternalServerError => "generic.internal_server_error"@,
            APIMessages::BadRequest => "generic.bad_request"@,
            APIMessages::Unauthorized => "generic.unauthorized"@,
            APIMessages::NotFound => "generic.not_found"@,
            APIMessages::Forbidden => "generic.forbidden"@,
            APIMessages::Conflict => "generic.conflict"@,
            APIMessages::UnprocessableEntity => "generic.unprocessable_entity"@,
            APIMessages::TooManyRequests => "generic.too_many_requests"@,
            APIMessages::ServiceUnavailable => "generic.service_unavailable"@,
            APIMessages::GatewayTimeout => "generic.gateway_timeout"@,
            APIMessages::Token(m) => m.text(),
            APIMessages::Input(m) => m.text(),
            APIMessages::Email(m) => m.text(),
            APIMessages::Mongo(m) => m.text(),
            APIMessages::Redis(m) => m.text(),
            APIMessages::Customer(m) => m.text(),
        }
    }

    pub fn to_string(&self) -> (s: String)
        ensures
            s@ == self.text(),
    {
        match self {
            APIMessages::InternalServerError => "generic.internal_server_error".to_string(),
            APIMessages::BadRequest => "generic.bad_request".to_string(),
            APIMessages::Unauthorized => "generic.unauthorized".to_string(),
            APIMessages::NotFound => "generic.not_found".to_string(),
            APIMessages::Forbidden => "generic.forbidden".to_string(),
            APIMessages::Conflict => "generic.conflict".to_string(),
            APIMessages::UnprocessableEntity => "generic.unprocessable_entity".to_string(),
            APIMessages::TooManyRequests => "generic.too_many_requests".to_string(),
            APIMessages::ServiceUnavailable => "generic.service_unavailable".to_string(),
            APIMessages::GatewayTimeout => "generic.gateway_timeout".to_string(),
            APIMessages::Token(m) => m.to_string(),
            APIMessages::Input(m) => m.to_string(),
            APIMessages::Email(m) => m.to_string(),
            APIMessages::Mongo(m) => m.to_string(),
            APIMessages::Redis(m) => m.to_string(),
            APIMessages::Customer(m) => m.to_string(),
        }
    }
}

impl TokenMessages {
    /// The text of the message.
    pub open spec fn text(self) -> Seq<char> {
        match self {
            TokenMessages::Missing => "token.missing"@,
            TokenMessages::NotSigningKeyFound => "token.not_signing_key_found"@,
            TokenMessages::Created => "token.created"@,
            TokenMessages::ErrorCreating => "token.error_creating"@,
            TokenMessages::Expired => "token.expired"@,
            TokenMessages::ErrorValidating => "token.error_validating"@,
            TokenMessages::Renewed => "token.renewed"@,
            TokenMessages::ErrorRenewing => "token.error_renewing"@,
            TokenMessages::NotAllowedScopesToPerformAction => "token.not_allowed_scopes_to_perform_action"@,
            TokenMessages::OnlyLegacyProvider => "token.only_legacy_provider"@,
            TokenMessages::OnlyGoogleProvider => "token.only_google_provider"@,
            TokenMessages::ErrorFetchingUserFromGoogle => "token.error_fetching_user_from_google"@,
            TokenMessages::ErrorRequestingGoogleToken => "token.error_requesting_google_token"@,
            TokenMessages::NotAuthorizationHeader => "token.not_authorization_header"@,
            TokenMessages::ErrorParsingToken => "token.error_parsing_token"@,
        }
    }

    pub fn to_string(&self) -> (s: String)
        ensures
            s@ == self.text(),
    {
        match self {
            TokenMessages::Missing => "token.missing".to_string(),
            TokenMessages::NotSigningKeyFound => "token.not_signing_key_found".to_string(),
            TokenMessages::Created => "token.created".to_string(),
            TokenMessages::ErrorCreating => "token.error_creating".to_string(),
            TokenMessages::Expired => "token.expired".to_string(),
            TokenMessages::ErrorValidating => "token.error_validating".to_string(),
            TokenMessages::Renewed => "token.renewed".to_string(),
            TokenMessages::ErrorRenewing => "token.error_renewing".to_string(),
            TokenMessages::NotAllowedScopesToPerformAction => "token.not_allowed_scopes_to_perform_action".to_string(),
            TokenMessages::OnlyLegacyProvider => "token.only_legacy_provider".to_string(),
            TokenMessages::OnlyGoogleProvider => "token.only_google_provider".to_string(),
            TokenMessages::ErrorFetchingUserFromGoogle => "token.error_fetching_user_from_google".to_string(),
            TokenMessages::ErrorRequestingGoogleToken => "token.error_requesting_google_token".to_string(),
            TokenMessages::NotAuthorizationHeader => "token.not_authorization_header".to_string(),
            TokenMessages::ErrorParsingToken => "token.error_parsing_token".to_string(),
        }
    }
}

impl InputMessages {
    /// The text of the message.
    pub open spec fn text(self) -> Seq<char> {
        match self {
            InputMessages::InvalidNameLength => "generic.invalid_name_length"@,
            InputMessages::InvalidOldPasswordLength => "generic.invalid_old_password_length"@,
            InputMessages::InvalidNewPasswordLength => "generic.invalid_new_password_length"@,
            InputMessages::PasswordMustHaveAtLeastOneLetterAndOneNumber => "generic.password_must_have_at_least_one_letter_and_one_number"@,
            InputMessages::NewPasswordAndOldPasswordMustBeDifferent => "generic.new_password_and_old_password_must_be_different"@,
            InputMessages::NewPasswordConfirmationMustMatch => "generic.new_password_confirmation_must_match"@,
        }
    }

    pub fn to_string(&self) -> (s: String)
        ensures
            s@ == self.text(),
    {
        match self {
            InputMessages::InvalidNameLength => "generic.invalid_name_length".to_string(),
            InputMessages::InvalidOldPasswordLength => "generic.invalid_old_password_length".to_string(),
            InputMessages::InvalidNewPasswordLength => "generic.invalid_new_password_length".to_string(),
            InputMessages::PasswordMustHaveAtLeastOneLetterAndOneNumber => "generic.password_must_have_at_least_one_letter_and_one_number".to_string(),
            InputMessages::NewPasswordAndOldPasswordMustBeDifferent => "generic.new_password_and_old_password_must_be_different".to_string(),
            InputMessages::NewPasswordConfirmationMustMatch => "generic.new_password_confirmation_must_match".to_string(),
        }
    }
}

impl CustomerMessages {
    /// The text of the message.
    pub open spec fn text(self) -> Seq<char> {
        match self {
            CustomerMessages::Created => "customer.created"@,
            CustomerMessages::Found => "customer.found"@,
            CustomerMessages::NotFound => "customer.not_found"@,
            CustomerMessages::NotAcceptedTerms => "customer.not_accepted_terms"@,
            CustomerMessages::InvalidType => "customer.invalid_type"@,
            CustomerMessages::PasswordConfirmationDoesNotMatch => "customer.password_confirmation_does_not_match"@,
            CustomerMessages::IncorrectPassword => "customer.incorrect_password"@,
            CustomerMessages::ErrorVerifyingPassword => "customer.error_verifying_password"@,
            CustomerMessages::ErrorHashingPassword => "customer.error_hashing_password"@,
            CustomerMessages::ErrorRegisteringCustomerInMarketingPlatform => "customer.error_registering_in_marketing_platform"@,
            CustomerMessages::NameUpdated => "customer.name_updated"@,
            CustomerMessages::PasswordUpdated => "customer.password_updated"@,
            CustomerMessages::EmailAdded => "customer.email_added"@,
            CustomerMessages::NotFoundByID => "customer.not_found_by_id"@,
        }
    }

    pub fn to_string(&self) -> (s: String)
        ensures
            s@ == self.text(),
    {
        match self {
            CustomerMessages::Created => "customer.created".to_string(),
            CustomerMessages::Found => "customer.found".to_string(),
            CustomerMessages::NotFound => "customer.not_found".to_string(),
            CustomerMessages::NotAcceptedTerms => "customer.not_accepted_terms".to_string(),
            CustomerMessages::InvalidType => "customer.invalid_type".to_string(),
            CustomerMessages::PasswordConfirmationDoesNotMatch => "customer.password_confirmation_does_not_match".to_string(),
            CustomerMessages::IncorrectPassword => "customer.incorrect_password".to_string(),
            CustomerMessages::ErrorVerifyingPassword => "customer.error_verifying_password".to_string(),
            CustomerMessages::ErrorHashingPassword => "customer.error_hashing_password".to_string(),
            CustomerMessages::ErrorRegisteringCustomerInMarketingPlatform => "customer.error_registering_in_marketing_platform".to_string(),
            CustomerMessages::NameUpdated => "customer.name_updated".to_string(),
            CustomerMessages::PasswordUpdated => "customer.password_updated".to_string(),
            CustomerMessages::EmailAdded => "customer.email_added".to_string(),
            CustomerMessages::NotFoundByID => "customer.not_found_by_id".to_string(),
        }
    }
}

impl MongoMessages {
    /// The text of the message.
    pub open spec fn text(self) -> Seq<char> {
        match self {
            MongoMessages::ErrorInserting => "storage.mongo_error_inserting"@,
        }
    }

    pub fn to_string(&self) -> (s: String)
        ensures
            s@ == self.text(),
    {
        match self {
            MongoMessages::ErrorInserting => "storage.mongo_error_inserting".to_string(),
        }
    }
}

impl RedisMessages {
    /// The text of the message.
    pub open spec fn text(self) -> Seq<char> {
        match self {
            RedisMessages::FailedToConnect => "storage.redis_failed_to_connect"@,
            RedisMessages::ErrorFetching => "storage.redis_error_fetching"@,
            RedisMessages::ErrorDeleting => "storage.redis_error_deleting"@,
            RedisMessages::ErrorSettingKey => "storage.redis_error_setting_key"@,
        }
    }

    pub fn to_string(&self) -> (s: String)
        ensures
            s@ == self.text(),
    {
        match self {
            RedisMessages::FailedToConnect => "storage.redis_failed_to_connect".to_string(),
            RedisMessages::ErrorFetching => "storage.redis_error_fetching".to_string(),
            RedisMessages::ErrorDeleting => "storage.redis_error_deleting".to_string(),
            RedisMessages::ErrorSettingKey => "storage.redis_error_setting_key".to_string(),
        }
    }
}

impl EmailMessages {
    /// The text of the message.
    pub open spec fn text(self) -> Seq<char> {
        match self {
            EmailMessages::Verified => "email.verified"@,
            EmailMessages::Invalid => "email.invalid"@,
            EmailMessages::Taken => "email.taken"@,
            EmailMessages::TakenByOtherCustomer => "email.taken_by_other_customer"@,
            EmailMessages::TakenByYou => "email.taken_by_you"@,
            EmailMessages::EmailAndPasswordMustBeDifferent => "email.and_password_must_be_different"@,
            EmailMessages::ErrorSendingVerificationEmail => "email.error_sending_verification_email"@,
            EmailMessages::MaxEmailsReached => "email.max_emails_reached"@,
        }
    }

    pub fn to_string(&self) -> (s: String)
        ensures
            s@ == self.text(),
    {
        match self {
            EmailMessages::Verified => "email.verified".to_string(),
            EmailMessages::Invalid => "email.invalid".to_string(),
            EmailMessages::Taken => "email.taken".to_string(),
            EmailMessages::TakenByOtherCustomer => "email.taken_by_other_customer".to_string(),
            EmailMessages::TakenByYou => "email.taken_by_you".to_string(),
            EmailMessages::EmailAndPasswordMustBeDifferent => "email.and_password_must_be_different".to_string(),
            EmailMessages::ErrorSendingVerificationEmail => "email.error_sending_verification_email".to_string(),
            EmailMessages::MaxEmailsReached => "email.max_emails_reached".to_string(),
        }
    }
}

} // verus!
