//! Billing events as the provider sends them, and the products they name.

use vstd::prelude::*;

verus! {

/// The billing provider's identifiers of the paid plan.
#[derive(Clone, Debug, PartialEq, Eq)]
pub struct Products {
    pub pro_product_id: i64,
    pub pro_monthly_variant_id: i64,
    pub pro_annually_variant_id: i64,
}

/// An event about an order.
#[derive(Clone, Debug, PartialEq, Eq)]
pub struct OrderEvent {
    pub meta: Meta,
    pub data: OrderData,
}

/// An event about a subscription.
#[derive(Clone, Debug, PartialEq, Eq)]
pub struct SubscriptionEvent {
    pub meta: Meta,
    pub data: SubscriptionData,
}

/// What an event is and whom it concerns.
#[derive(Clone, Debug, PartialEq, Eq)]
pub struct Meta {
    pub event_name: String,
    pub webhook_id: Option<String>,
    pub custom_data: Option<CustomData>,
    pub test_mode: Option<bool>,
}

/// The data handed to the provider at checkout.
#[derive(Clone, Debug, PartialEq, Eq)]
pub struct CustomData {
    /// The id of the customer record.
    pub customer_id: String,
}

/// Links to the objects an event's object is related to.
#[derive(Clone, Debug, PartialEq, Eq)]
pub struct Relationships {
    pub store: Option<RelationshipLinks>,
    pub customer: Option<RelationshipLinks>,
    pub product: Option<RelationshipLinks>,
    pub variant: Option<RelationshipLinks>,
    pub order: Option<RelationshipLinks>,
    pub order_item: Option<RelationshipLinks>,
    pub subscription_item: Option<RelationshipLinks>,
    pub license_keys: Option<RelationshipLinks>,
    pub discount_redemptions: Option<RelationshipLinks>,
}

/// The two links of a relationship.
#[derive(Clone, Debug, PartialEq, Eq)]
pub struct RelationshipLinksLinks {
    pub related: String,
    pub link_self: String,
}

/// A relationship's links.
#[derive(Clone, Debug, PartialEq, Eq)]
pub struct RelationshipLinks {
    pub links: RelationshipLinksLinks,
}

/// The link of an object to itself.
#[derive(Clone, Debug, PartialEq, Eq)]
pub struct Links {
    pub link_self: String,
}

/// The order an event is about.
#[derive(Clone, Debug, PartialEq, Eq)]
pub struct OrderData {
    /// The provider's name of the object's type.
    pub kind: String,
    pub id: String,
    pub attributes: OrderAttributes,
    pub relationships: Option<Relationships>,
    pub links: Links,
}

/// An order as the provider describes it.
#[derive(Clone, Debug, PartialEq, Eq)]
pub struct OrderAttributes {
    pub store_id: i64,
    pub customer_id: i64,
    pub identifier: String,
    pub order_number: i64,
    pub user_name: String,
    pub user_email: String,
    pub currency: String,
    pub currency_rate: String,
    pub subtotal: i64,
    pub discount_total: i64,
    pub tax: i64,
    pub total: i64,
    pub subtotal_usd: i64,
    pub discount_total_usd: i64,
    pub tax_usd: i64,
    pub total_usd: i64,
    pub tax_name: String,
    pub tax_rate: String,
    pub status: String,
    pub status_formatted: String,
    pub refunded: bool,
    pub refunded_at: String,
    pub subtotal_formatted: String,
    pub discount_total_formatted: String,
    pub tax_formatted: String,
    pub total_formatted: String,
    pub first_order_item: OrderItem,
    pub urls: OrderUrls,
    pub created_at: String,
    pub updated_at: String,
}

/// The first item of an order.
#[derive(Clone, Debug, PartialEq, Eq)]
pub struct OrderItem {
    pub id: i64,
    pub order_id: i64,
    pub product_id: i64,
    pub variant_id: i64,
    pub product_name: String,
    pub variant_name: String,
    pub price: i64,
    pub created_at: String,
    pub updated_at: String,
    pub deleted_at: String,
    pub test_mode: bool,
}

/// Where the receipt of an order is.
#[derive(Clone, Debug, PartialEq, Eq)]
pub struct OrderUrls {
    pub receipt: String,
}

/// The subscription an event is about.
#[derive(Clone, Debug, PartialEq, Eq)]
pub struct SubscriptionData {
    /// The provider's name of the object's type.
    pub kind: String,
    pub id: String,
    pub attributes: SubscriptionAttributes,
    pub relationships: Option<Relationships>,
    pub links: Option<Links>,
}

/// A subscription as the provider describes it.
#[derive(Clone, Debug, PartialEq, Eq)]
pub struct SubscriptionAttributes {
    pub store_id: i64,
    pub customer_id: i64,
    pub order_id: i64,
    pub order_item_id: i64,
    pub product_id: i64,
    pub variant_id: i64,
    pub product_name: String,
    pub variant_name: String,
    pub user_name: String,
    pub user_email: String,
    pub status: String,
    pub status_formatted: String,
    pub card_brand: String,
    pub card_last_four: String,
    pub pause: Option<String>,
    pub cancelled: bool,
    pub trial_ends_at: Option<String>,
    pub billing_anchor: i64,
    pub first_subscription_item: Option<FirstSubscriptionItem>,
    pub urls: Option<SubscriptionUrls>,
    pub renews_at: String,
    pub ends_at: Option<String>,
    pub created_at: String,
    pub updated_at: String,
    pub test_mode: bool,
}

/// The first item of a subscription.
#[derive(Clone, Debug, PartialEq, Eq)]
pub struct FirstSubscriptionItem {
    pub id: i64,
    pub price_id: i64,
    pub subscription_id: i64,
    pub quantity: i64,
    pub created_at: String,
    pub updated_at: String,
    pub is_usage_based: bool,
}

/// Where a customer manages a subscription.
#[derive(Clone, Debug, PartialEq, Eq)]
pub struct SubscriptionUrls {
    pub update_payment_method: String,
    pub customer_portal: String,
}

} // verus!
