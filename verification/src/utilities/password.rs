//! Password hashing, left to the `bcrypt` crate.

use vstd::prelude::*;

verus! {

/// The error of the `bcrypt` crate. Nothing is read from it.
#[verifier::external_type_specification]
#[verifier::external_body]
pub struct ExBcryptError(bcrypt::BcryptError);

/// Whether a password is the one a bcrypt hash was made of, as
/// `bcrypt::verify` decides it; none if it cannot tell, as for a text that is
/// no bcrypt hash.
pub uninterp spec fn bcrypt_verifies(password: Seq<char>, hash: Seq<char>) -> Option<bool>;

/// Calls `bcrypt::hash` with the default cost. The salt is random, so the
/// hash is not named; whatever it is, `bcrypt::verify` accepts the same
/// password for it.
#[verifier::external_body]
pub(crate) fn hash_password(password: &str) -> (r: Result<String, bcrypt::BcryptError>)
    ensures
        r matches Ok(hash) ==> bcrypt_verifies(password@, hash@) == Some(true),
{
    bcrypt::hash(password, bcrypt::DEFAULT_COST)
}

/// Calls `bcrypt::verify`. The contract names the result.
#[verifier::external_body]
pub(crate) fn verify_password(password: &str, hash: &str) -> (r: Result<
    bool,
    bcrypt::BcryptError,
>)
    ensures
        match r {
            Ok(same) => bcrypt_verifies(password@, hash@) == Some(same),
            Err(_) => bcrypt_verifies(password@, hash@) is None,
        },
{
    bcrypt::verify(password, hash)
}

} // verus!
