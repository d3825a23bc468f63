//! The subscription reconciler: what each billing event writes to the
//! subscription of the customer it concerns.
//!
//! Every handler has the same shape. The customer must have been found; the
//! write sets only the fields the handler owns and appends exactly one entry,
//! the event's name and date, to the history.

use vstd::prelude::*;
use crate::storage::{
    updated_subscription,
    StorageError,
    SubscriptionTerms,
    SubscriptionTermsView,
    SubscriptionUpdate,
    SubscriptionUpdateView,
};
use crate::text::same_text;
use crate::types::customer::Customer;
use crate::types::lemonsqueezy::{Products, SubscriptionEvent};
use crate::types::response::{failure, GenericResponse, GenericResponseView};
use crate::types::subscription::{
    Slug,
    SubscriptionFrequencyClass,
    SubscriptionHistoryLog,
    SubscriptionHistoryLogView,
    SubscriptionView,
};
use crate::utilities::helpers::{is_identifier, random_string};

verus! {

/// The length of a subscription's id.
pub const SUBSCRIPTION_ID_LENGTH: usize = 15;

/// What a billing event asks of the reconciler.
#[derive(Clone, Copy, Debug, PartialEq, Eq, Structural)]
pub enum EventKind {
    /// A subscription was created: everything is set.
    Created,
    /// A subscription was changed: variant and status are set.
    Updated,
    /// Cancelled, resumed, expired, paused or unpaused: the status is set.
    StatusChange,
    /// A payment succeeded, failed or was recovered: only the history grows.
    HistoryOnly,
    /// Any other event: acknowledged and left alone.
    Ignored,
}

/// The kind of the event with the given name.
pub open spec fn event_kind(name: Seq<char>) -> EventKind {
    if name == "subscription_created"@ {
        EventKind::Created
    } else if name == "subscription_updated"@ {
        EventKind::Updated
    } else if name == "subscription_cancelled"@ || name == "subscription_resumed"@ || name
        == "subscription_expired"@ || name == "subscription_paused"@ || name
        == "subscription_unpaused"@ {
        EventKind::StatusChange
    } else if name == "subscription_payment_success"@ || name == "subscription_payment_failed"@
        || name == "subscription_payment_recovered"@ {
        EventKind::HistoryOnly
    } else {
        EventKind::Ignored
    }
}

/// Tells the kind of an event from its name.
pub fn classify_event(name: &str) -> (kind: EventKind)
    ensures
        kind == event_kind(name@),
{
    if same_text(name, "subscription_created") {
        EventKind::Created
    } else if same_text(name, "subscription_updated") {
        EventKind::Updated
    } else if same_text(name, "subscription_cancelled") || same_text(name, "subscription_resumed")
        || same_text(name, "subscription_expired") || same_text(name, "subscription_paused")
        || same_text(name, "subscription_unpaused") {
        EventKind::StatusChange
    } else if same_text(name, "subscription_payment_success") || same_text(
        name,
        "subscription_payment_failed",
    ) || same_text(name, "subscription_payment_recovered") {
        EventKind::HistoryOnly
    } else {
        EventKind::Ignored
    }
}

/// The history entry of an event: its name and the date it carries.
pub open spec fn history_entry(event: SubscriptionEvent) -> SubscriptionHistoryLogView {
    SubscriptionHistoryLogView {
        event: event.meta.event_name@,
        date: event.data.attributes.updated_at@,
    }
}

/// The billing frequency of a variant: monthly or annually for the two
/// configured variants, none for any other.
pub open spec fn frequency_of(variant_id: i64, products: Products) -> Option<
    SubscriptionFrequencyClass,
> {
    if variant_id == products.pro_monthly_variant_id {
        Some(SubscriptionFrequencyClass::MONTHLY)
    } else if variant_id == products.pro_annually_variant_id {
        Some(SubscriptionFrequencyClass::ANNUALLY)
    } else {
        None
    }
}

/// The plan of a product: the paid one for the configured product, the free
/// one for any other.
pub open spec fn slug_of(product_id: i64, products: Products) -> Slug {
    if product_id == products.pro_product_id {
        Slug::PRO
    } else {
        Slug::FREE
    }
}

/// The end date of an event, empty if it carries none.
pub open spec fn end_date(event: SubscriptionEvent) -> Seq<char> {
    match event.data.attributes.ends_at {
        Some(date) => date@,
        None => Seq::empty(),
    }
}

/// What a creation writes: every field, with the given fresh id, and the
/// account's own date of creation.
pub open spec fn created_update(
    event: SubscriptionEvent,
    account_created_at: Seq<char>,
    products: Products,
    id: Seq<char>,
) -> SubscriptionUpdateView {
    SubscriptionUpdateView {
        terms: Some(
            SubscriptionTermsView {
                id,
                product_id: event.data.attributes.product_id,
                slug: slug_of(event.data.attributes.product_id, products),
                frequency: frequency_of(event.data.attributes.variant_id, products).unwrap(),
                created_at: account_created_at,
                starts_at: event.data.attributes.created_at@,
                ends_at: end_date(event),
                renews_at: event.data.attributes.renews_at@,
            },
        ),
        variant_id: Some(event.data.attributes.variant_id),
        status: Some(event.data.attributes.status@),
        updated_at: event.data.attributes.updated_at@,
        log: history_entry(event),
    }
}

/// What a change writes: variant, status, date of change.
pub open spec fn changed_update(event: SubscriptionEvent) -> SubscriptionUpdateView {
    SubscriptionUpdateView {
        terms: None,
        variant_id: Some(event.data.attributes.variant_id),
        status: Some(event.data.attributes.status@),
        updated_at: event.data.attributes.updated_at@,
        log: history_entry(event),
    }
}

/// What a change of status writes: status, date of change.
pub open spec fn status_update(event: SubscriptionEvent) -> SubscriptionUpdateView {
    SubscriptionUpdateView {
        terms: None,
        variant_id: None,
        status: Some(event.data.attributes.status@),
        updated_at: event.data.attributes.updated_at@,
        log: history_entry(event),
    }
}

/// What a payment event writes: the date of change.
pub open spec fn history_update(event: SubscriptionEvent) -> SubscriptionUpdateView {
    SubscriptionUpdateView {
        terms: None,
        variant_id: None,
        status: None,
        updated_at: event.data.attributes.updated_at@,
        log: history_entry(event),
    }
}

/// Why an event cannot be reconciled with what the lookup of its customer
/// gave, if it cannot.
pub open spec fn lookup_refusal(lookup: Result<Option<Customer>, StorageError>) -> Option<
    Seq<char>,
> {
    match lookup {
        Err(_) => Some("error checking customer existence"@),
        Ok(None) => Some("invalid customer_id: not records"@),
        Ok(Some(_)) => None,
    }
}

/// The outcome of a creation for a given fresh id.
pub open spec fn created_outcome(
    event: SubscriptionEvent,
    lookup: Result<Option<Customer>, StorageError>,
    products: Products,
    id: Seq<char>,
) -> Result<SubscriptionUpdateView, GenericResponseView> {
    match lookup {
        Ok(Some(customer)) => if frequency_of(event.data.attributes.variant_id, products)
            is Some {
            Ok(created_update(event, customer.created_at@, products, id))
        } else {
            Err(failure("invalid variant_id"@))
        },
        _ => Err(failure(lookup_refusal(lookup).unwrap())),
    }
}

/// The outcome of an event that needs nothing but its customer.
pub open spec fn found_outcome(
    lookup: Result<Option<Customer>, StorageError>,
    update: SubscriptionUpdateView,
) -> Result<SubscriptionUpdateView, GenericResponseView> {
    match lookup_refusal(lookup) {
        Some(message) => Err(failure(message)),
        None => Ok(update),
    }
}

/// The view of a handler's result.
pub open spec fn outcome_view(r: Result<SubscriptionUpdate, GenericResponse>) -> Result<
    SubscriptionUpdateView,
    GenericResponseView,
> {
    match r {
        Ok(update) => Ok(update@),
        Err(response) => Err(response@),
    }
}

/// The customer that a lookup found, or the refusal.
fn found_customer(lookup: &Result<Option<Customer>, StorageError>) -> (r: Result<
    &Customer,
    GenericResponse,
>)
    ensures
        match r {
            Ok(customer) => *lookup == Ok::<Option<Customer>, StorageError>(Some(*customer)),
            Err(response) => lookup_refusal(*lookup) matches Some(message) && response@
                == failure(message),
        },
{
    match lookup {
        Err(_) => Err(GenericResponse::failure("error checking customer existence".to_string())),
        Ok(None) => Err(GenericResponse::failure("invalid customer_id: not records".to_string())),
        Ok(Some(customer)) => Ok(customer),
    }
}

/// The history entry of an event.
fn log_of(event: &SubscriptionEvent) -> (log: SubscriptionHistoryLog)
    ensures
        log@ == history_entry(*event),
{
    SubscriptionHistoryLog {
        event: event.meta.event_name.clone(),
        date: event.data.attributes.updated_at.clone(),
    }
}

/// Reconciles a `subscription_created` event with the given fresh id.
///
/// The variant must be one of the two configured ones; any other is refused
/// and nothing is written. The plan is the paid one if the product is the
/// configured one, the free one otherwise. The subscription's own date of
/// creation stays the account's.
pub fn subscription_created_with_id(
    event: &SubscriptionEvent,
    lookup: &Result<Option<Customer>, StorageError>,
    products: &Products,
    id: String,
) -> (r: Result<SubscriptionUpdate, GenericResponse>)
    ensures
        outcome_view(r) == created_outcome(*event, *lookup, *products, id@),
{
    let customer = found_customer(lookup)?;
    let attributes = &event.data.attributes;
    let frequency = if attributes.variant_id == products.pro_monthly_variant_id {
        SubscriptionFrequencyClass::MONTHLY
    } else if attributes.variant_id == products.pro_annually_variant_id {
        SubscriptionFrequencyClass::ANNUALLY
    } else {
        return Err(GenericResponse::failure("invalid variant_id".to_string()));
    };
    let slug = if attributes.product_id == products.pro_product_id {
        Slug::PRO
    } else {
        Slug::FREE
    };
    let ends_at = match &attributes.ends_at {
        Some(date) => date.clone(),
        None => String::new(),
    };
    Ok(
        SubscriptionUpdate {
            terms: Some(
                SubscriptionTerms {
                    id,
                    product_id: attributes.product_id,
                    slug,
                    frequency,
                    created_at: customer.created_at.clone(),
                    starts_at: attributes.created_at.clone(),
                    ends_at,
                    renews_at: attributes.renews_at.clone(),
                },
            ),
            variant_id: Some(attributes.variant_id),
            status: Some(attributes.status.clone()),
            updated_at: attributes.updated_at.clone(),
            log: log_of(event),
        },
    )
}

/// Reconciles a `subscription_created` event: draws a fresh id of 15 letters
/// and digits and sets every field of the subscription.
///
/// Whether the event is refused depends on the lookup and the variant alone;
/// the write is the one for the id that was drawn.
pub fn subscription_created(
    event: &SubscriptionEvent,
    lookup: &Result<Option<Customer>, StorageError>,
    products: &Products,
) -> (r: Result<SubscriptionUpdate, GenericResponse>)
    ensures
        match r {
            Ok(update) => update.terms matches Some(terms) && is_identifier(
                terms.id@,
                SUBSCRIPTION_ID_LENGTH,
            ) && created_outcome(*event, *lookup, *products, terms.id@) == Ok::<
                SubscriptionUpdateView,
                GenericResponseView,
            >(update@),
            Err(response) => forall|id: Seq<char>|
                created_outcome(*event, *lookup, *products, id) == Err::<
                    SubscriptionUpdateView,
                    GenericResponseView,
                >(response@),
        },
{
    let id = random_string(SUBSCRIPTION_ID_LENGTH);
    subscription_created_with_id(event, lookup, products, id)
}

/// Reconciles a `subscription_updated` event: sets variant, status and date
/// of change; plan, frequency and product stay as the creation set them.
pub fn subscription_updated(
    event: &SubscriptionEvent,
    lookup: &Result<Option<Customer>, StorageError>,
) -> (r: Result<SubscriptionUpdate, GenericResponse>)
    ensures
        outcome_view(r) == found_outcome(*lookup, changed_update(*event)),
{
    let _ = found_customer(lookup)?;
    Ok(
        SubscriptionUpdate {
            terms: None,
            variant_id: Some(event.data.attributes.variant_id),
            status: Some(event.data.attributes.status.clone()),
            updated_at: event.data.attributes.updated_at.clone(),
            log: log_of(event),
        },
    )
}

/// Reconciles a cancellation, resumption, expiry, pause or unpause: sets
/// the status and the date of change.
pub fn subscription_update_status(
    event: &SubscriptionEvent,
    lookup: &Result<Option<Customer>, StorageError>,
) -> (r: Result<SubscriptionUpdate, GenericResponse>)
    ensures
        outcome_view(r) == found_outcome(*lookup, status_update(*event)),
{
    let _ = found_customer(lookup)?;
    Ok(
        SubscriptionUpdate {
            terms: None,
            variant_id: None,
            status: Some(event.data.attributes.status.clone()),
            updated_at: event.data.attributes.updated_at.clone(),
            log: log_of(event),
        },
    )
}

/// Reconciles a payment event: sets the date of change. The status is not
/// touched.
pub fn subscription_update_history_logs(
    event: &SubscriptionEvent,
    lookup: &Result<Option<Customer>, StorageError>,
) -> (r: Result<SubscriptionUpdate, GenericResponse>)
    ensures
        outcome_view(r) == found_outcome(*lookup, history_update(*event)),
{
    let _ = found_customer(lookup)?;
    Ok(
        SubscriptionUpdate {
            terms: None,
            variant_id: None,
            status: None,
            updated_at: event.data.attributes.updated_at.clone(),
            log: log_of(event),
        },
    )
}

/// A creation, then a payment, then a change of status, reconciled one
/// after the other into a subscription without history: the history holds
/// exactly the three events in that order, the status is the one of the last
/// event that carries a status, and plan and frequency are those of the
/// creation.
pub proof fn lemma_created_paid_cancelled(
    before: SubscriptionView,
    created: SubscriptionEvent,
    paid: SubscriptionEvent,
    cancelled: SubscriptionEvent,
    products: Products,
    account_created_at: Seq<char>,
    id: Seq<char>,
)
    requires
        before.history_logs.len() == 0,
        frequency_of(created.data.attributes.variant_id, products) is Some,
    ensures
        ({
            let first = updated_subscription(
                before,
                created_update(created, account_created_at, products, id),
            );
            let second = updated_subscription(first, history_update(paid));
            let third = updated_subscription(second, status_update(cancelled));
            &&& third.history_logs == seq![
                history_entry(created),
                history_entry(paid),
                history_entry(cancelled),
            ]
            &&& third.status == cancelled.data.attributes.status@
            &&& third.slug == slug_of(created.data.attributes.product_id, products)
            &&& Some(third.frequency) == frequency_of(
                created.data.attributes.variant_id,
                products,
            )
            &&& third.id == id
            &&& third.created_at == account_created_at
        }),
{
    let first = updated_subscription(
        before,
        created_update(created, account_created_at, products, id),
    );
    let second = updated_subscription(first, history_update(paid));
    let third = updated_subscription(second, status_update(cancelled));
    assert(third.history_logs =~= seq![
        history_entry(created),
        history_entry(paid),
        history_entry(cancelled),
    ]);
}

/// Two writes that were computed from the same record are both kept in the
/// history, whichever is performed first: each write appends its own entry
/// and carries no copy of the history it was computed from.
pub proof fn lemma_both_writes_kept(
    before: SubscriptionView,
    one: SubscriptionUpdateView,
    other: SubscriptionUpdateView,
)
    ensures
        updated_subscription(updated_subscription(before, one), other).history_logs
            == before.history_logs + seq![one.log, other.log],
        updated_subscription(updated_subscription(before, other), one).history_logs
            == before.history_logs + seq![other.log, one.log],
{
    assert(updated_subscription(updated_subscription(before, one), other).history_logs
        =~= before.history_logs + seq![one.log, other.log]);
    assert(updated_subscription(updated_subscription(before, other), one).history_logs
        =~= before.history_logs + seq![other.log, one.log]);
}

/// A write that is no creation leaves plan, frequency, product, id and the
/// dates of the term as they are.
pub proof fn lemma_terms_kept(before: SubscriptionView, update: SubscriptionUpdateView)
    requires
        update.terms is None,
    ensures
        ({
            let after = updated_subscription(before, update);
            &&& after.id == before.id
            &&& after.product_id == before.product_id
            &&& after.slug == before.slug
            &&& after.frequency == before.frequency
            &&& after.created_at == before.created_at
            &&& after.starts_at == before.starts_at
            &&& after.ends_at == before.ends_at
            &&& after.renews_at == before.renews_at
        }),
{
}

} // verus!
