//! Checking a password against a stored Argon2 hash.

use vstd::prelude::*;

verus! {

#[verifier::external_type_specification]
#[verifier::external_body]
pub struct ExArgon2Error(argon2::Error);

/// What Argon2 verification gives for an encoded hash and a password:
/// `Some(true)` where the password matches the hash, `Some(false)` where it does
/// not, `None` where the encoded hash cannot be decoded or computed with.
pub uninterp spec fn argon2_verified(encoded: Seq<char>, password: Seq<char>) -> Option<bool>;

/// How a password compares with a stored hash.
#[derive(Clone, Copy, Debug, PartialEq, Eq, Structural)]
pub enum PasswordCheck {
    Match,
    Mismatch,
    /// The stored hash could not be used at all.
    Unusable,
}

pub open spec fn check_of(outcome: Option<bool>) -> PasswordCheck {
    match outcome {
        Some(true) => PasswordCheck::Match,
        Some(false) => PasswordCheck::Mismatch,
        None => PasswordCheck::Unusable,
    }
}

/// Calls `argon2::verify_encoded` on the encoded hash and the password's bytes.
/// Trusted: the call is a function of its two arguments, and its `Ok` value and
/// its failure are what `argon2_verified` names. The hash's parameters decide how
/// much memory and time the call takes.
#[verifier::external_body]
fn verify_encoded(encoded: &str, password: &str) -> (r: Result<bool, argon2::Error>)
    ensures
        match r {
            Ok(b) => argon2_verified(encoded@, password@) == Some(b),
            Err(_) => argon2_verified(encoded@, password@).is_none(),
        },
{
    argon2::verify_encoded(encoded, password.as_bytes())
}

/// Compares `password` with the stored hash `encoded`.
pub fn check_password(encoded: &str, password: &str) -> (c: PasswordCheck)
    ensures
        c == check_of(argon2_verified(encoded@, password@)),
{
    match verify_encoded(encoded, password) {
        Ok(true) => PasswordCheck::Match,
        Ok(false) => PasswordCheck::Mismatch,
        Err(_) => PasswordCheck::Unusable,
    }
}

} // verus!
