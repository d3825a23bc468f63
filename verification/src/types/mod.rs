//! The data model: customers, subscriptions, requests and billing events.

pub mod customer;
pub mod email;
pub mod incoming_requests;
pub mod lemonsqueezy;
pub mod response;
pub mod subscription;
