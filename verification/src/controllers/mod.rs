//! The decisions behind the endpoints: sessions, customers, emails.

pub mod announce;
pub mod customer;
pub mod email;
pub mod identity;
pub mod scopes;
