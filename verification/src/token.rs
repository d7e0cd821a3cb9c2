//! Session tokens: HS256-signed claim sets that carry the user's identifier.

use vstd::prelude::*;
use hmac::{Hmac, Mac};
use jwt::{RegisteredClaims, SignWithKey, VerifyWithKey};
use sha2::Sha256;
use crate::decimal::{decimal_of, i32_to_decimal};
use crate::error::AuthError;

verus! {

#[verifier::external_type_specification]
#[verifier::external_body]
pub struct ExJwtError(jwt::Error);

/// The claims of a token as contracts see them: issuer, subject, expiration.
pub type ClaimsView = (Option<Seq<char>>, Option<Seq<char>>, Option<u64>);

/// The token that HS256 signing under `key` gives for a claim set with this
/// issuer, subject and expiration and no other claim; `None` where signing fails.
pub uninterp spec fn hs256_signed(
    key: Seq<u8>,
    issuer: Seq<char>,
    subject: Seq<char>,
    expiration: u64,
) -> Option<Seq<char>>;

/// The claims that HS256 verification under `key` reads from `token`; `None`
/// where the token is malformed or its signature is not one made with `key`.
pub uninterp spec fn hs256_verified(key: Seq<u8>, token: Seq<char>) -> Option<ClaimsView>;

/// The claims that the library reads from a verified token.
#[derive(Clone, Debug)]
pub struct TokenClaims {
    pub issuer: Option<String>,
    pub subject: Option<String>,
    /// Seconds since the Unix epoch.
    pub expiration: Option<u64>,
}

pub open spec fn text_view(s: Option<String>) -> Option<Seq<char>> {
    match s {
        Some(t) => Some(t@),
        None => None,
    }
}

impl View for TokenClaims {
    type V = ClaimsView;

    open spec fn view(&self) -> ClaimsView {
        (text_view(self.issuer), text_view(self.subject), self.expiration)
    }
}

/// Builds the HMAC-SHA256 state for `key` (`Mac::new_from_slice`, which takes a
/// key of any length) and calls `SignWithKey::sign_with_key` on registered claims
/// that hold the issuer, the subject and the expiration. Trusted: the token is a
/// function of these four values, named by `hs256_signed`; and the token that
/// comes out verifies under the same key, where verification recomputes the
/// signature over the same header and claims and decodes the claims that were
/// encoded.
#[verifier::external_body]
fn sign_claims(key: &[u8], issuer: &str, subject: &str, expiration: u64) -> (r: Result<
    String,
    jwt::Error,
>)
    ensures
        match r {
            Ok(t) => hs256_signed(key@, issuer@, subject@, expiration) == Some(t@),
            Err(_) => hs256_signed(key@, issuer@, subject@, expiration).is_none(),
        },
        match r {
            Ok(t) => hs256_verified(key@, t@) == Some(
                (Some(issuer@), Some(subject@), Some(expiration)),
            ),
            Err(_) => true,
        },
{
    let mac: Hmac<Sha256> = Hmac::new_from_slice(key)?;
    let claims = RegisteredClaims {
        issuer: Some(issuer.to_string()),
        subject: Some(subject.to_string()),
        expiration: Some(expiration),
        ..Default::default()
    };
    claims.sign_with_key(&mac)
}

/// Builds the HMAC-SHA256 state for `key` and calls
/// `VerifyWithKey::verify_with_key` on the token, reading registered claims.
/// Trusted: the outcome is a function of key and token, named by
/// `hs256_verified`. The call checks structure and signature; it does not look
/// at the expiration.
#[verifier::external_body]
fn verify_claims(key: &[u8], token: &str) -> (r: Result<TokenClaims, jwt::Error>)
    ensures
        match r {
            Ok(c) => hs256_verified(key@, token@) == Some(c@),
            Err(_) => hs256_verified(key@, token@).is_none(),
        },
{
    let mac: Hmac<Sha256> = Hmac::new_from_slice(key)?;
    let claims: RegisteredClaims = token.verify_with_key(&mac)?;
    Ok(TokenClaims {
        issuer: claims.issuer,
        subject: claims.subject,
        expiration: claims.expiration,
    })
}

/// The token for user `id`: subject is the decimal text of `id`, expiration is
/// `timestamp` read as an unsigned number of seconds.
pub open spec fn jwt_string(key: Seq<u8>, issuer: Seq<char>, id: i32, timestamp: i64) -> Option<
    Seq<char>,
> {
    hs256_signed(key, issuer, decimal_of(id as int), timestamp as u64)
}

/// The claims of the token for user `id`.
pub open spec fn jwt_claims(issuer: Seq<char>, id: i32, timestamp: i64) -> ClaimsView {
    (Some(issuer), Some(decimal_of(id as int)), Some(timestamp as u64))
}

/// Signs a token for user `id` that expires at `timestamp`. The token verifies
/// under the same key and gives back the claims that went in.
pub fn create_jwt_string(id: i32, issuer: &str, timestamp: i64, key: &[u8]) -> (r: Result<
    String,
    AuthError,
>)
    ensures
        match r {
            Ok(t) => {
                &&& jwt_string(key@, issuer@, id, timestamp) == Some(t@)
                &&& hs256_verified(key@, t@) == Some(jwt_claims(issuer@, id, timestamp))
            },
            Err(e) => e == AuthError::Internal && jwt_string(key@, issuer@, id, timestamp).is_none(),
        },
{
    let subject = i32_to_decimal(id);
    let expiration: u64 = #[verifier::truncate]
    (timestamp as u64);
    match sign_claims(key, issuer, subject.as_str(), expiration) {
        Ok(token) => Ok(token),
        Err(_) => Err(AuthError::Internal),
    }
}

/// Verifies `token` under `key` and hands out its claims; `None` where it does
/// not verify.
pub fn read_jwt_string(token: &str, key: &[u8]) -> (r: Option<TokenClaims>)
    ensures
        match r {
            Some(c) => hs256_verified(key@, token@) == Some(c@),
            None => hs256_verified(key@, token@).is_none(),
        },
{
    match verify_claims(key, token) {
        Ok(claims) => Some(claims),
        Err(_) => None,
    }
}

} // verus!
