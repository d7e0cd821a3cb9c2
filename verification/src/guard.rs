//! Guards: a request passes where its session names a user of sufficient role.

use vstd::prelude::*;
use crate::clock::unix_now;
use crate::config::AuthConfig;
use crate::decimal::{lemma_decimal_round_trip, parse_i32, parsed_i32};
use crate::login::issued_for;
use crate::error::AuthError;
use crate::role::UserRole;
use crate::token::{hs256_verified, read_jwt_string, ClaimsView, TokenClaims};
use crate::user::UserData;

verus! {

/// Whether a token with this expiration is still good at `now`: it must name an
/// expiration, and `now` must lie before it.
pub open spec fn unexpired(expiration: Option<u64>, now: i64) -> bool {
    match expiration {
        Some(e) => now < e,
        None => false,
    }
}

/// The user identifier that verified claims stand for at `now`.
pub open spec fn claims_subject(claims: ClaimsView, now: i64) -> Result<i32, AuthError> {
    if !unexpired(claims.2, now) {
        Err(AuthError::Unauthorized)
    } else {
        match claims.1 {
            None => Err(AuthError::Internal),
            Some(subject) => match parsed_i32(subject) {
                None => Err(AuthError::Internal),
                Some(id) => Ok(id),
            },
        }
    }
}

/// The user identifier that a request's session cookie stands for at `now`.
pub open spec fn session_subject(key: Seq<u8>, cookie: Option<Seq<char>>, now: i64) -> Result<
    i32,
    AuthError,
> {
    match cookie {
        None => Err(AuthError::Unauthorized),
        Some(token) => match hs256_verified(key, token) {
            None => Err(AuthError::Unauthorized),
            Some(claims) => claims_subject(claims, now),
        },
    }
}

/// What a guard for `required` does with the record found for the session's user.
pub open spec fn admission(found: Option<UserData>, required: UserRole) -> Result<
    UserData,
    AuthError,
> {
    match found {
        None => Err(AuthError::Internal),
        Some(user) => if user.role.permits(required) {
            Ok(user)
        } else {
            Err(AuthError::Unauthorized)
        },
    }
}

/// What a guard for `required` does with a request at `now`, where `users` is
/// what the user store holds under each identifier.
pub open spec fn guard_decision(
    key: Seq<u8>,
    cookie: Option<Seq<char>>,
    now: i64,
    users: spec_fn(i32) -> Option<UserData>,
    required: UserRole,
) -> Result<UserData, AuthError> {
    match session_subject(key, cookie, now) {
        Err(e) => Err(e),
        Ok(id) => admission(users(id), required),
    }
}

/// The text of the session cookie, where the request has one.
pub open spec fn cookie_text(cookie: Option<&str>) -> Option<Seq<char>> {
    match cookie {
        Some(t) => Some(t@),
        None => None,
    }
}

/// Whether the token's expiration lies after `now`.
pub fn is_unexpired(expiration: Option<u64>, now: i64) -> (b: bool)
    ensures
        b == unexpired(expiration, now),
{
    match expiration {
        Some(e) => now < 0 || (now as u64) < e,
        None => false,
    }
}

/// Reads the user identifier from verified claims: expired claims, or claims
/// without expiration, are turned away; a subject that is missing or is no
/// identifier is a fault.
pub fn subject_of(claims: &TokenClaims, now: i64) -> (r: Result<i32, AuthError>)
    ensures
        r == claims_subject(claims@, now),
{
    if !is_unexpired(claims.expiration, now) {
        return Err(AuthError::Unauthorized);
    }
    match &claims.subject {
        None => Err(AuthError::Internal),
        Some(subject) => match parse_i32(subject.as_str()) {
            None => Err(AuthError::Internal),
            Some(id) => Ok(id),
        },
    }
}

/// First half of a guard, at a given time: from the request's `auth-token`
/// cookie to the identifier of the user to load.
pub fn authenticate_at(config: &AuthConfig, cookie: Option<&str>, now: i64) -> (r: Result<
    i32,
    AuthError,
>)
    ensures
        r == session_subject(
            config.jwt_key@,
            cookie_text(cookie),
            now,
        ),
{
    let token = match cookie {
        Some(token) => token,
        None => return Err(AuthError::Unauthorized),
    };
    match read_jwt_string(token, config.jwt_key.as_slice()) {
        None => Err(AuthError::Unauthorized),
        Some(claims) => subject_of(&claims, now),
    }
}

/// First half of a guard at the present time, read from the system clock.
pub fn authenticate(config: &AuthConfig, cookie: Option<&str>) -> (r: Result<i32, AuthError>)
    ensures
        exists|now: i64|
            r == #[trigger] session_subject(
                config.jwt_key@,
                cookie_text(cookie),
                now,
            ),
{
    let now = unix_now();
    authenticate_at(config, cookie, now)
}

/// A guard: admits users whose role is at least `required`.
#[derive(Clone, Copy, Debug, PartialEq, Eq, Structural)]
pub struct RoleGuard {
    pub required: UserRole,
}

impl RoleGuard {
    pub fn new(required: UserRole) -> (g: RoleGuard)
        ensures
            g.required == required,
    {
        RoleGuard { required }
    }

    /// The guard for ordinary users and above.
    pub fn user() -> (g: RoleGuard)
        ensures
            g.required == UserRole::User,
    {
        RoleGuard { required: UserRole::User }
    }

    /// The guard for administrators.
    pub fn admin() -> (g: RoleGuard)
        ensures
            g.required == UserRole::Admin,
    {
        RoleGuard { required: UserRole::Admin }
    }

    /// Second half of a guard: `found` is what the user store holds for the
    /// session's user. A missing record is a fault; a role below the required
    /// one is turned away; otherwise the record goes on to the handler.
    pub fn authorize(&self, found: Option<UserData>) -> (r: Result<UserData, AuthError>)
        ensures
            r == admission(found, self.required),
    {
        match found {
            None => Err(AuthError::Internal),
            Some(user) => if user.role.at_least(self.required) {
                Ok(user)
            } else {
                Err(AuthError::Unauthorized)
            },
        }
    }
}

/// A guard admits exactly the users whose role is at least the required one:
/// whoever is admitted is the stored record of the session's user and has such
/// a role, and a stored user of a lower role is never admitted, whatever the
/// token.
pub proof fn lemma_guard_admits_by_role(
    key: Seq<u8>,
    cookie: Option<Seq<char>>,
    now: i64,
    users: spec_fn(i32) -> Option<UserData>,
    required: UserRole,
)
    ensures
        match guard_decision(key, cookie, now, users, required) {
            Ok(user) => {
                &&& user.role.permits(required)
                &&& session_subject(key, cookie, now).is_ok()
                &&& users(session_subject(key, cookie, now).unwrap()) == Some(user)
            },
            Err(_) => true,
        },
        forall|id: i32|
            session_subject(key, cookie, now) == Ok::<i32, AuthError>(id) && users(id).is_some()
                ==> (guard_decision(key, cookie, now, users, required).is_ok()
                <==> users(id).unwrap().role.permits(required)),
        forall|id: i32|
            session_subject(key, cookie, now) == Ok::<i32, AuthError>(id) && users(id).is_some()
                && !users(id).unwrap().role.permits(required) ==> guard_decision(
                key,
                cookie,
                now,
                users,
                required,
            ) == Err::<UserData, AuthError>(AuthError::Unauthorized),
{
}

/// A token that verifies as the session of user `id` begun at `now` stands for
/// that user until a week has passed, and is unauthorized from then on.
pub proof fn lemma_session_token_stands_for_user(
    key: Seq<u8>,
    token: Seq<char>,
    issuer: Seq<char>,
    id: i32,
    now: i64,
    later: i64,
)
    requires
        0 <= now <= i64::MAX - 604800,
        issued_for(key, token, issuer, id, now),
    ensures
        later < now + 604800 ==> session_subject(key, Some(token), later) == Ok::<i32, AuthError>(
            id,
        ),
        later >= now + 604800 ==> session_subject(key, Some(token), later) == Err::<
            i32,
            AuthError,
        >(AuthError::Unauthorized),
{
    lemma_decimal_round_trip(id);
}

/// A request without session cookie is unauthorized, never a fault.
pub proof fn lemma_missing_cookie_unauthorized(
    key: Seq<u8>,
    now: i64,
    users: spec_fn(i32) -> Option<UserData>,
    required: UserRole,
)
    ensures
        guard_decision(key, None, now, users, required) == Err::<UserData, AuthError>(
            AuthError::Unauthorized,
        ),
        AuthError::Unauthorized.status() == 401,
{
}

/// A token that does not verify under the key is unauthorized, whatever it holds.
pub proof fn lemma_unverified_token_unauthorized(
    key: Seq<u8>,
    token: Seq<char>,
    now: i64,
    users: spec_fn(i32) -> Option<UserData>,
    required: UserRole,
)
    requires
        hs256_verified(key, token).is_none(),
    ensures
        guard_decision(key, Some(token), now, users, required) == Err::<UserData, AuthError>(
            AuthError::Unauthorized,
        ),
{
}

/// A verified token is unauthorized from its expiration on, and so is one
/// that names no expiration.
pub proof fn lemma_expired_token_unauthorized(
    key: Seq<u8>,
    token: Seq<char>,
    now: i64,
    users: spec_fn(i32) -> Option<UserData>,
    required: UserRole,
)
    requires
        hs256_verified(key, token).is_some(),
        match hs256_verified(key, token).unwrap().2 {
            Some(e) => e <= now,
            None => true,
        },
    ensures
        guard_decision(key, Some(token), now, users, required) == Err::<UserData, AuthError>(
            AuthError::Unauthorized,
        ),
{
}

} // verus!
