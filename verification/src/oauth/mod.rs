//! Sign-in with Google.

pub mod google;
