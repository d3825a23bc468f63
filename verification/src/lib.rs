//! Customer identity and subscription billing: sessions and authorization
//! scopes, signed session tokens, webhook authenticity, and the reconciliation
//! of billing events into a customer's subscription.
//!
//! The library decides; it performs no input or output. A handler is one or
//! more functions from what a request carries and what the stores answered to
//! a reply and, where something is to be stored, to the write to perform. The
//! program around the library reads requests, asks the stores and sends the
//! replies.
//!
//! - [`utilities`]: the message catalogue, validation of input, password
//!   hashing, and the token codec.
//! - [`controllers`]: authorization scopes, sessions, customer records and
//!   email addresses.
//! - [`lemonsqueezy`]: signature verification for the billing webhooks and the
//!   subscription reconciler.
//! - [`storage`]: how a customer is found, and the partial writes to a record.
//! - [`session_store`]: the session store, kept in memory.
//! - [`server`]: the configuration, built once and checked as a whole.
//! - [`types`], [`oauth`], [`email`]: the data that crosses the library's
//!   border.
//!
//! Every function is verified against its contract. What other crates compute
//! (HMAC, JSON web tokens, bcrypt, regular expressions, random identifiers,
//! lower case, numbers read from text) is called through small functions whose
//! contracts are taken on trust; each says in its documentation which function
//! it calls and what it claims of it.

pub mod controllers;
pub mod email;
pub mod lemonsqueezy;
pub mod oauth;
pub mod server;
pub mod session_store;
pub mod storage;
pub mod text;
pub mod types;
pub mod utilities;
