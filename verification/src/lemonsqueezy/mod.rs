//! Billing webhooks: signature verification and the subscription reconciler.

pub mod subscription;
pub mod webhook;
