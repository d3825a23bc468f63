//! What is asked of the email provider.

pub mod actions;
