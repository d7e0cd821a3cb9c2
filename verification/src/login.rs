//! Login with email and password: decides between a session and a refusal.

use vstd::prelude::*;
use crate::clock::unix_now;
use crate::config::AuthConfig;
use crate::error::AuthError;
use crate::password::{argon2_verified, check_of, check_password, PasswordCheck};
use crate::token::{create_jwt_string, hs256_verified, jwt_claims, jwt_string};
use crate::user::UserData;

verus! {

/// Lifetime of a session in seconds: one week.
pub const SESSION_SECONDS: i64 = 604800;

/// The cookie that a login sets and that a guard reads.
#[derive(Clone, Debug)]
pub struct SessionCookie {
    pub name: String,
    pub value: String,
    pub path: String,
    pub http_only: bool,
    pub secure: bool,
    /// Seconds since the Unix epoch; equal to the token's expiration.
    pub expires: i64,
}

impl SessionCookie {
    /// The session cookie for `token`: named `auth-token`, for every path, hidden
    /// from scripts, expiring at `expires`.
    pub open spec fn carries(&self, token: Seq<char>, expires: int, secure: bool) -> bool {
        &&& self.name@ == "auth-token"@
        &&& self.value@ == token
        &&& self.path@ == "/"@
        &&& self.http_only
        &&& self.secure == secure
        &&& self.expires == expires
    }
}

/// What a successful login answers.
#[derive(Clone, Debug)]
pub struct LoginSuccess {
    pub status: u16,
    pub message: String,
    pub cookie: SessionCookie,
}

/// How the password compares with the record found for the email; `None`
/// where no record was found.
pub open spec fn credential_check(user: Option<UserData>, password: Seq<char>) -> Option<
    PasswordCheck,
> {
    match user {
        None => None,
        Some(u) => Some(check_of(argon2_verified(u.password@, password))),
    }
}

/// Whether credentials pass. An unknown email and a wrong password are refused
/// alike; a stored hash that cannot be used is a fault of the server.
pub open spec fn credential_verdict(check: Option<PasswordCheck>) -> Result<(), AuthError> {
    match check {
        None => Err(AuthError::InvalidCredentials),
        Some(PasswordCheck::Unusable) => Err(AuthError::Internal),
        Some(PasswordCheck::Mismatch) => Err(AuthError::InvalidCredentials),
        Some(PasswordCheck::Match) => Ok(()),
    }
}

/// What a login at time `now` comes to: the token and its expiration, or the
/// refusal. `user` is the record found for the email, if any.
pub open spec fn login_decision(
    key: Seq<u8>,
    issuer: Seq<char>,
    user: Option<UserData>,
    password: Seq<char>,
    now: i64,
) -> Result<(Seq<char>, int), AuthError> {
    match credential_verdict(credential_check(user, password)) {
        Err(e) => Err(e),
        Ok(_) => if now + SESSION_SECONDS > i64::MAX {
            Err(AuthError::Internal)
        } else {
            match jwt_string(key, issuer, user.unwrap().id, (now + SESSION_SECONDS) as i64) {
                None => Err(AuthError::Internal),
                Some(token) => Ok((token, now + SESSION_SECONDS)),
            }
        },
    }
}

/// The record that the user store gave, where it gave one.
pub open spec fn found_user(user: Option<&UserData>) -> Option<UserData> {
    match user {
        Some(u) => Some(*u),
        None => None,
    }
}

/// Whether `r` is the answer that `decision` calls for.
pub open spec fn answers(
    r: Result<LoginSuccess, AuthError>,
    decision: Result<(Seq<char>, int), AuthError>,
    secure: bool,
) -> bool {
    match decision {
        Err(e) => r == Err::<LoginSuccess, AuthError>(e),
        Ok((token, expires)) => {
            &&& r.is_ok()
            &&& r.unwrap().status == 200
            &&& r.unwrap().message@ == "You have logged in"@
            &&& r.unwrap().cookie.carries(token, expires, secure)
        },
    }
}

/// Whether `token` verifies under `key` as the session of user `id` begun at
/// `now`: its subject is the decimal text of `id`, and it expires one week
/// after `now`.
pub open spec fn issued_for(
    key: Seq<u8>,
    token: Seq<char>,
    issuer: Seq<char>,
    id: i32,
    now: i64,
) -> bool {
    hs256_verified(key, token) == Some(jwt_claims(issuer, id, (now + SESSION_SECONDS) as i64))
}

/// The moment at which a session begun at `now` ends, or `None` where that
/// moment is beyond what a timestamp can hold.
pub fn session_expiry(now: i64) -> (r: Option<i64>)
    ensures
        r == (if now + SESSION_SECONDS <= i64::MAX {
            Some((now + SESSION_SECONDS) as i64)
        } else {
            None
        }),
{
    now.checked_add(SESSION_SECONDS)
}

/// Decides on credentials from what the password check gave; `None` stands for
/// an email without record.
pub fn judge_credentials(check: Option<PasswordCheck>) -> (r: Result<(), AuthError>)
    ensures
        r == credential_verdict(check),
{
    match check {
        None => Err(AuthError::InvalidCredentials),
        Some(PasswordCheck::Unusable) => Err(AuthError::Internal),
        Some(PasswordCheck::Mismatch) => Err(AuthError::InvalidCredentials),
        Some(PasswordCheck::Match) => Ok(()),
    }
}

/// The answer to a successful login: status 200 and the session cookie that
/// carries `token` until `expires`.
pub fn session_answer(token: String, expires: i64, secure: bool) -> (s: LoginSuccess)
    ensures
        s.status == 200,
        s.message@ == "You have logged in"@,
        s.cookie.carries(token@, expires as int, secure),
{
    LoginSuccess {
        status: 200,
        message: "You have logged in".to_owned(),
        cookie: SessionCookie {
            name: "auth-token".to_owned(),
            value: token,
            path: "/".to_owned(),
            http_only: true,
            secure,
            expires,
        },
    }
}

/// Login at a given time. `user` is the record that the user store holds for
/// the email, `None` where it holds none.
pub fn basic_at(config: &AuthConfig, user: Option<&UserData>, password: &str, now: i64) -> (r:
    Result<LoginSuccess, AuthError>)
    ensures
        answers(
            r,
            login_decision(config.jwt_key@, config.issuer@, found_user(user), password@, now),
            config.secure_cookie,
        ),
        r.is_ok() ==> user.is_some() && issued_for(
            config.jwt_key@,
            r.unwrap().cookie.value@,
            config.issuer@,
            user.unwrap().id,
            now,
        ),
{
    let check = match user {
        Some(u) => Some(check_password(u.password.as_str(), password)),
        None => None,
    };
    match judge_credentials(check) {
        Err(e) => return Err(e),
        Ok(_) => {},
    }
    let user = match user {
        Some(user) => user,
        None => return Err(AuthError::InvalidCredentials),
    };
    let expires = match session_expiry(now) {
        Some(expires) => expires,
        None => return Err(AuthError::Internal),
    };
    match create_jwt_string(user.id, config.issuer.as_str(), expires, config.jwt_key.as_slice()) {
        Ok(token) => Ok(session_answer(token, expires, config.secure_cookie)),
        Err(e) => Err(e),
    }
}

/// Login at the present time, read from the system clock.
pub fn basic(config: &AuthConfig, user: Option<&UserData>, password: &str) -> (r: Result<
    LoginSuccess,
    AuthError,
>)
    ensures
        exists|now: i64|
            answers(
                r,
                #[trigger] login_decision(
                    config.jwt_key@,
                    config.issuer@,
                    found_user(user),
                    password@,
                    now,
                ),
                config.secure_cookie,
            ),
{
    let now = unix_now();
    basic_at(config, user, password, now)
}

/// A login for an email that the user store does not hold is refused as
/// invalid credentials, whatever the password and the time: never as a fault,
/// never with a session.
pub proof fn lemma_unknown_email_refused(
    key: Seq<u8>,
    issuer: Seq<char>,
    password: Seq<char>,
    now: i64,
)
    ensures
        login_decision(key, issuer, None, password, now) == Err::<(Seq<char>, int), AuthError>(
            AuthError::InvalidCredentials,
        ),
        AuthError::InvalidCredentials.status() == 400,
{
}

/// A wrong password for a known email is refused exactly as an unknown email is.
pub proof fn lemma_wrong_password_like_unknown_email(
    key: Seq<u8>,
    issuer: Seq<char>,
    user: UserData,
    password: Seq<char>,
    now: i64,
)
    requires
        argon2_verified(user.password@, password) == Some(false),
    ensures
        login_decision(key, issuer, Some(user), password, now) == login_decision(
            key,
            issuer,
            None,
            password,
            now,
        ),
{
}

/// A login that succeeds carries the token signed for the user's identifier,
/// and token and cookie expire exactly one week after the login.
pub proof fn lemma_session_lasts_one_week(
    key: Seq<u8>,
    issuer: Seq<char>,
    user: UserData,
    password: Seq<char>,
    now: i64,
)
    requires
        login_decision(key, issuer, Some(user), password, now).is_ok(),
    ensures
        argon2_verified(user.password@, password) == Some(true),
        login_decision(key, issuer, Some(user), password, now).unwrap().1 == now + 604800,
        jwt_string(key, issuer, user.id, (now + 604800) as i64) == Some(
            login_decision(key, issuer, Some(user), password, now).unwrap().0,
        ),
{
}

/// A correct password is answered with a session whenever the expiry fits a
/// timestamp and signing succeeds.
pub proof fn lemma_correct_password_accepted(
    key: Seq<u8>,
    issuer: Seq<char>,
    user: UserData,
    password: Seq<char>,
    now: i64,
)
    requires
        argon2_verified(user.password@, password) == Some(true),
        now + 604800 <= i64::MAX,
        jwt_string(key, issuer, user.id, (now + 604800) as i64).is_some(),
    ensures
        login_decision(key, issuer, Some(user), password, now).is_ok(),
{
}

} // verus!
