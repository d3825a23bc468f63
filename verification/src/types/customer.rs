//! Customers and what a response may show of them.

use vstd::prelude::*;
use crate::text::{same_text, UnknownVariant};
use crate::types::subscription::{Subscription, SubscriptionView};

verus! {

/// The most email addresses a customer can hold.
pub const MAX_EMAILS: usize = 5;

/// The kind of account a customer holds.
#[derive(Clone, Copy, Debug, PartialEq, Eq, Structural)]
pub enum CustomerType {
    PERSONAL,
    MANAGER,
    DEVELOPER,
}

impl CustomerType {
    /// The name of the kind.
    pub open spec fn text(self) -> Seq<char> {
        match self {
            CustomerType::PERSONAL => "personal"@,
            CustomerType::MANAGER => "manager"@,
            CustomerType::DEVELOPER => "developer"@,
        }
    }

    /// The kind that a name stands for, if any.
    pub open spec fn parse(s: Seq<char>) -> Option<CustomerType> {
        if s == "personal"@ {
            Some(CustomerType::PERSONAL)
        } else if s == "manager"@ {
            Some(CustomerType::MANAGER)
        } else if s == "developer"@ {
            Some(CustomerType::DEVELOPER)
        } else {
            None
        }
    }

    pub fn to_string(&self) -> (s: String)
        ensures
            s@ == self.text(),
    {
        match self {
            CustomerType::PERSONAL => "personal".to_string(),
            CustomerType::MANAGER => "manager".to_string(),
            CustomerType::DEVELOPER => "developer".to_string(),
        }
    }

    /// Reads a name. A name that is no kind is an error, never a default.
    pub fn from_str(s: &str) -> (r: Result<CustomerType, UnknownVariant>)
        ensures
            r == match CustomerType::parse(s@) {
                Some(class) => Ok::<CustomerType, UnknownVariant>(class),
                None => Err::<CustomerType, UnknownVariant>(UnknownVariant),
            },
    {
        if same_text(s, "personal") {
            Ok(CustomerType::PERSONAL)
        } else if same_text(s, "manager") {
            Ok(CustomerType::MANAGER)
        } else if same_text(s, "developer") {
            Ok(CustomerType::DEVELOPER)
        } else {
            Err(UnknownVariant)
        }
    }

    /// Every kind is read back from its own name.
    pub proof fn lemma_text_round_trip(class: CustomerType)
        ensures
            CustomerType::parse(class.text()) == Some(class),
    {
        reveal_strlit("personal");
        reveal_strlit("manager");
        reveal_strlit("developer");
        assert("personal"@.len() == 8 && "manager"@.len() == 7 && "developer"@.len() == 9);
    }
}

/// Who vouches for a customer's identity at sign-in.
#[derive(Clone, Copy, Debug, PartialEq, Eq, Structural)]
pub enum AuthProviders {
    GOOGLE,
    /// Email and password, checked here.
    LEGACY,
}

impl AuthProviders {
    /// The name under which the provider is shown.
    pub open spec fn text(self) -> Seq<char> {
        match self {
            AuthProviders::GOOGLE => "GOOGLE"@,
            AuthProviders::LEGACY => "LEGACY"@,
        }
    }

    /// The provider that a request names, if any.
    pub open spec fn parse(s: Seq<char>) -> Option<AuthProviders> {
        if s == "google"@ {
            Some(AuthProviders::GOOGLE)
        } else if s == "legacy"@ {
            Some(AuthProviders::LEGACY)
        } else {
            None
        }
    }

    pub fn to_string(&self) -> (s: String)
        ensures
            s@ == self.text(),
    {
        match self {
            AuthProviders::GOOGLE => "GOOGLE".to_string(),
            AuthProviders::LEGACY => "LEGACY".to_string(),
        }
    }

    /// Reads the name a request gives. A name that is no provider is an
    /// error; the caller decides whether a default applies.
    pub fn from_str(s: &str) -> (r: Result<AuthProviders, UnknownVariant>)
        ensures
            r == match AuthProviders::parse(s@) {
                Some(provider) => Ok::<AuthProviders, UnknownVariant>(provider),
                None => Err::<AuthProviders, UnknownVariant>(UnknownVariant),
            },
    {
        if same_text(s, "google") {
            Ok(AuthProviders::GOOGLE)
        } else if same_text(s, "legacy") {
            Ok(AuthProviders::LEGACY)
        } else {
            Err(UnknownVariant)
        }
    }
}

/// An email address of a customer.
#[derive(Clone, Debug, PartialEq, Eq)]
pub struct Email {
    /// Lower case.
    pub address: String,
    /// Set once the owner has redeemed a verification token.
    pub verified: bool,
    /// Exactly one address of a customer is the main one.
    pub main: bool,
}

/// The mathematical value of a [`Email`].
pub struct EmailView {
    pub address: Seq<char>,
    pub verified: bool,
    pub main: bool,
}

impl View for Email {
    type V = EmailView;

    open spec fn view(&self) -> EmailView {
        EmailView {
            address: self.address@,
            verified: self.verified,
            main: self.main,
        }
    }
}

impl DeepView for Email {
    type V = EmailView;

    open spec fn deep_view(&self) -> EmailView {
        self@
    }
}

/// What a customer chose for the user interface.
#[derive(Clone, Debug, PartialEq, Eq)]
pub struct Preferences {
    pub dark_mode: bool,
    pub language: String,
    pub notifications: bool,
}

/// The mathematical value of a [`Preferences`].
pub struct PreferencesView {
    pub dark_mode: bool,
    pub language: Seq<char>,
    pub notifications: bool,
}

impl View for Preferences {
    type V = PreferencesView;

    open spec fn view(&self) -> PreferencesView {
        PreferencesView {
            dark_mode: self.dark_mode,
            language: self.language@,
            notifications: self.notifications,
        }
    }
}

impl DeepView for Preferences {
    type V = PreferencesView;

    open spec fn deep_view(&self) -> PreferencesView {
        self@
    }
}

/// A customer record: identity, credentials, preferences and subscription.
#[derive(Clone, Debug, PartialEq, Eq)]
pub struct Customer {
    pub id: String,
    pub name: String,
    pub class: CustomerType,
    pub emails: Vec<Email>,
    pub auth_provider: AuthProviders,
    /// The hash of the password; empty unless the provider is `LEGACY`.
    pub password: String,
    /// Hashes of the backup codes.
    pub backup_security_codes: Vec<String>,
    pub preferences: Preferences,
    pub subscription: Subscription,
    pub created_at: String,
    pub updated_at: String,
    pub deleted: bool,
}

/// The mathematical value of a [`Customer`].
pub struct CustomerView {
    pub id: Seq<char>,
    pub name: Seq<char>,
    pub class: CustomerType,
    pub emails: Seq<EmailView>,
    pub auth_provider: AuthProviders,
    pub password: Seq<char>,
    pub backup_security_codes: Seq<Seq<char>>,
    pub preferences: PreferencesView,
    pub subscription: SubscriptionView,
    pub created_at: Seq<char>,
    pub updated_at: Seq<char>,
    pub deleted: bool,
}

impl View for Customer {
    type V = CustomerView;

    open spec fn view(&self) -> CustomerView {
        CustomerView {
            id: self.id@,
            name: self.name@,
            class: self.class,
            emails: self.emails.deep_view(),
            auth_provider: self.auth_provider,
            password: self.password@,
            backup_security_codes: self.backup_security_codes.deep_view(),
            preferences: self.preferences@,
            subscription: self.subscription@,
            created_at: self.created_at@,
            updated_at: self.updated_at@,
            deleted: self.deleted,
        }
    }
}

impl DeepView for Customer {
    type V = CustomerView;

    open spec fn deep_view(&self) -> CustomerView {
        self@
    }
}

/// What anyone may see of a customer.
#[derive(Clone, Debug, PartialEq, Eq)]
pub struct PublicCustomer {
    pub id: String,
    pub name: String,
    pub class: CustomerType,
    pub preferences: Preferences,
    pub subscription: Subscription,
    pub created_at: String,
    pub updated_at: String,
    pub deleted: bool,
}

/// The mathematical value of a [`PublicCustomer`].
pub struct PublicCustomerView {
    pub id: Seq<char>,
    pub name: Seq<char>,
    pub class: CustomerType,
    pub preferences: PreferencesView,
    pub subscription: SubscriptionView,
    pub created_at: Seq<char>,
    pub updated_at: Seq<char>,
    pub deleted: bool,
}

impl View for PublicCustomer {
    type V = PublicCustomerView;

    open spec fn view(&self) -> PublicCustomerView {
        PublicCustomerView {
            id: self.id@,
            name: self.name@,
            class: self.class,
            preferences: self.preferences@,
            subscription: self.subscription@,
            created_at: self.created_at@,
            updated_at: self.updated_at@,
            deleted: self.deleted,
        }
    }
}

impl DeepView for PublicCustomer {
    type V = PublicCustomerView;

    open spec fn deep_view(&self) -> PublicCustomerView {
        self@
    }
}

/// What a session may see of a customer: each field is present only if the
/// session's scopes allow it.
#[derive(Clone, Debug, PartialEq, Eq)]
pub struct PrivateSensitiveCustomer {
    pub id: Option<String>,
    pub name: Option<String>,
    pub class: Option<CustomerType>,
    pub emails: Option<Vec<Email>>,
    pub auth_provider: Option<AuthProviders>,
    pub preferences: Option<Preferences>,
    pub subscription: Option<Subscription>,
    pub created_at: Option<String>,
    pub updated_at: Option<String>,
    pub deleted: Option<bool>,
}

/// The mathematical value of a [`PrivateSensitiveCustomer`].
pub struct PrivateSensitiveCustomerView {
    pub id: Option<Seq<char>>,
    pub name: Option<Seq<char>>,
    pub class: Option<CustomerType>,
    pub emails: Option<Seq<EmailView>>,
    pub auth_provider: Option<AuthProviders>,
    pub preferences: Option<PreferencesView>,
    pub subscription: Option<SubscriptionView>,
    pub created_at: Option<Seq<char>>,
    pub updated_at: Option<Seq<char>>,
    pub deleted: Option<bool>,
}

impl View for PrivateSensitiveCustomer {
    type V = PrivateSensitiveCustomerView;

    open spec fn view(&self) -> PrivateSensitiveCustomerView {
        PrivateSensitiveCustomerView {
            id: self.id.deep_view(),
            name: self.name.deep_view(),
            class: self.class,
            emails: self.emails.deep_view(),
            auth_provider: self.auth_provider,
            preferences: self.preferences.deep_view(),
            subscription: self.subscription.deep_view(),
            created_at: self.created_at.deep_view(),
            updated_at: self.updated_at.deep_view(),
            deleted: self.deleted.deep_view(),
        }
    }
}

impl DeepView for PrivateSensitiveCustomer {
    type V = PrivateSensitiveCustomerView;

    open spec fn deep_view(&self) -> PrivateSensitiveCustomerView {
        self@
    }
}

/// The number of main addresses among some addresses.
pub open spec fn main_count(emails: Seq<EmailView>) -> nat
    decreases emails.len(),
{
    if emails.len() == 0 {
        0
    } else {
        main_count(emails.drop_last()) + if emails.last().main {
            1nat
        } else {
            0nat
        }
    }
}

/// Whether a customer record is well formed: it has one to five email
/// addresses and exactly one of them is the main one.
pub open spec fn well_formed(customer: CustomerView) -> bool {
    &&& 1 <= customer.emails.len() <= MAX_EMAILS
    &&& main_count(customer.emails) == 1
}

} // verus!
