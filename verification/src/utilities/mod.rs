//! Message catalogue, input validation, password hashing and the token codec.

pub mod api_messages;
pub mod helpers;
pub mod password;
pub mod token;
