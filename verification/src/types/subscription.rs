//! The subscription embedded in every customer record.

use vstd::prelude::*;
use crate::text::{same_text, UnknownVariant};

verus! {

/// The plan a subscription is on.
#[derive(Clone, Copy, Debug, PartialEq, Eq, Structural)]
pub enum Slug {
    FREE,
    PRO,
}

impl Slug {
    /// The name under which the plan is stored.
    pub open spec fn text(self) -> Seq<char> {
        match self {
            Slug::FREE => "free"@,
            Slug::PRO => "pro"@,
        }
    }

    /// The plan that a stored name stands for, if any.
    pub open spec fn parse(s: Seq<char>) -> Option<Slug> {
        if s == "free"@ {
            Some(Slug::FREE)
        } else if s == "pro"@ {
            Some(Slug::PRO)
        } else {
            None
        }
    }

    pub fn to_string(&self) -> (s: String)
        ensures
            s@ == self.text(),
    {
        match self {
            Slug::FREE => "free".to_string(),
            Slug::PRO => "pro".to_string(),
        }
    }

    /// Reads a stored name. A name that is no plan is an error, never a
    /// default.
    pub fn from_str(s: &str) -> (r: Result<Slug, UnknownVariant>)
        ensures
            r == match Slug::parse(s@) {
                Some(slug) => Ok::<Slug, UnknownVariant>(slug),
                None => Err::<Slug, UnknownVariant>(UnknownVariant),
            },
    {
        if same_text(s, "free") {
            Ok(Slug::FREE)
        } else if same_text(s, "pro") {
            Ok(Slug::PRO)
        } else {
            Err(UnknownVariant)
        }
    }

    /// Every plan is read back from its own name.
    pub proof fn lemma_text_round_trip(slug: Slug)
        ensures
            Slug::parse(slug.text()) == Some(slug),
    {
        reveal_strlit("free");
        reveal_strlit("pro");
        assert("free"@.len() == 4 && "pro"@.len() == 3);
    }
}

/// How often a subscription is billed.
#[derive(Clone, Copy, Debug, PartialEq, Eq, Structural)]
pub enum SubscriptionFrequencyClass {
    MONTHLY,
    ANNUALLY,
    /// The free plan is not billed.
    UNDEFINED,
}

impl SubscriptionFrequencyClass {
    /// The billing frequency that a name stands for, if any.
    pub open spec fn parse(s: Seq<char>) -> Option<SubscriptionFrequencyClass> {
        if s == "monthly"@ {
            Some(SubscriptionFrequencyClass::MONTHLY)
        } else if s == "yearly"@ {
            Some(SubscriptionFrequencyClass::ANNUALLY)
        } else if s == "undefined"@ {
            Some(SubscriptionFrequencyClass::UNDEFINED)
        } else {
            None
        }
    }

    /// Reads a name. A name that is no frequency is an error, never a
    /// default.
    pub fn from_str(s: &str) -> (r: Result<SubscriptionFrequencyClass, UnknownVariant>)
        ensures
            r == match SubscriptionFrequencyClass::parse(s@) {
                Some(f) => Ok::<SubscriptionFrequencyClass, UnknownVariant>(f),
                None => Err::<SubscriptionFrequencyClass, UnknownVariant>(UnknownVariant),
            },
    {
        if same_text(s, "monthly") {
            Ok(SubscriptionFrequencyClass::MONTHLY)
        } else if same_text(s, "yearly") {
            Ok(SubscriptionFrequencyClass::ANNUALLY)
        } else if same_text(s, "undefined") {
            Ok(SubscriptionFrequencyClass::UNDEFINED)
        } else {
            Err(UnknownVariant)
        }
    }
}

/// The feature sets a plan can unlock.
#[derive(Clone, Copy, Debug, PartialEq, Eq, Structural)]
pub enum SubscriptionFeatures {
    CORE,
}

impl SubscriptionFeatures {
    /// The feature set that a name stands for, if any.
    pub open spec fn parse(s: Seq<char>) -> Option<SubscriptionFeatures> {
        if s == "core"@ {
            Some(SubscriptionFeatures::CORE)
        } else {
            None
        }
    }

    /// Reads a name. A name that is no feature set is an error, never a
    /// default.
    pub fn from_str(s: &str) -> (r: Result<SubscriptionFeatures, UnknownVariant>)
        ensures
            r == match SubscriptionFeatures::parse(s@) {
                Some(f) => Ok::<SubscriptionFeatures, UnknownVariant>(f),
                None => Err::<SubscriptionFeatures, UnknownVariant>(UnknownVariant),
            },
    {
        if same_text(s, "core") {
            Ok(SubscriptionFeatures::CORE)
        } else {
            Err(UnknownVariant)
        }
    }
}

/// One entry of a subscription's history: a billing event and its date.
#[derive(Clone, Debug, PartialEq, Eq)]
pub struct SubscriptionHistoryLog {
    /// The event's name, as the billing provider sent it.
    pub event: String,
    /// When the provider says it happened.
    pub date: String,
}

/// The mathematical value of a [`SubscriptionHistoryLog`].
pub struct SubscriptionHistoryLogView {
    pub event: Seq<char>,
    pub date: Seq<char>,
}

impl View for SubscriptionHistoryLog {
    type V = SubscriptionHistoryLogView;

    open spec fn view(&self) -> SubscriptionHistoryLogView {
        SubscriptionHistoryLogView {
            event: self.event@,
            date: self.date@,
        }
    }
}

impl DeepView for SubscriptionHistoryLog {
    type V = SubscriptionHistoryLogView;

    open spec fn deep_view(&self) -> SubscriptionHistoryLogView {
        self@
    }
}

/// A customer's subscription. It is never deleted: a customer without a paid
/// plan is on the free one.
#[derive(Clone, Debug, PartialEq, Eq)]
pub struct Subscription {
    /// Replaced each time a subscription is created at the billing provider.
    pub id: String,
    pub product_id: i64,
    pub variant_id: i64,
    pub slug: Slug,
    pub frequency: SubscriptionFrequencyClass,
    /// The provider's status, kept as sent.
    pub status: String,
    /// When the customer's account was created.
    pub created_at: String,
    pub updated_at: String,
    pub starts_at: String,
    pub ends_at: String,
    pub renews_at: String,
    /// Every event reconciled so far, oldest first. It only grows.
    pub history_logs: Vec<SubscriptionHistoryLog>,
}

/// The mathematical value of a [`Subscription`].
pub struct SubscriptionView {
    pub id: Seq<char>,
    pub product_id: i64,
    pub variant_id: i64,
    pub slug: Slug,
    pub frequency: SubscriptionFrequencyClass,
    pub status: Seq<char>,
    pub created_at: Seq<char>,
    pub updated_at: Seq<char>,
    pub starts_at: Seq<char>,
    pub ends_at: Seq<char>,
    pub renews_at: Seq<char>,
    pub history_logs: Seq<SubscriptionHistoryLogView>,
}

impl View for Subscription {
    type V = SubscriptionView;

    open spec fn view(&self) -> SubscriptionView {
        SubscriptionView {
            id: self.id@,
            product_id: self.product_id,
            variant_id: self.variant_id,
            slug: self.slug,
            frequency: self.frequency,
            status: self.status@,
            created_at: self.created_at@,
            updated_at: self.updated_at@,
            starts_at: self.starts_at@,
            ends_at: self.ends_at@,
            renews_at: self.renews_at@,
            history_logs: self.history_logs.deep_view(),
        }
    }
}

impl DeepView for Subscription {
    type V = SubscriptionView;

    open spec fn deep_view(&self) -> SubscriptionView {
        self@
    }
}

} // verus!
