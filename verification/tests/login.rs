use web_auth::config::AuthConfig;
use web_auth::error::AuthError;
use web_auth::guard::authenticate_at;
use web_auth::login::{
    basic, basic_at, judge_credentials, session_answer, session_expiry, SESSION_SECONDS,
};
use web_auth::password::{check_password, PasswordCheck};
use web_auth::role::UserRole;
use web_auth::token::read_jwt_string;
use web_auth::user::UserData;

const PASSWORD_HASH: &str =
    "$argon2i$v=19$m=4096,t=3,p=1$c29tZXNhbHQ$iWh06vD8Fy27wf9npn6FXWiCX4K6pW6Ue1Bnzz07Z8A";

fn config() -> AuthConfig {
    AuthConfig::new(b"signing key".to_vec(), "localhost".to_string())
}

fn alice() -> UserData {
    UserData {
        id: 42,
        email: "alice@example.org".to_string(),
        password: PASSWORD_HASH.to_string(),
        role: UserRole::User,
    }
}

#[test]
fn password_check_tells_match_from_mismatch() {
    assert_eq!(check_password(PASSWORD_HASH, "password"), PasswordCheck::Match);
    assert_eq!(check_password(PASSWORD_HASH, "Password"), PasswordCheck::Mismatch);
    assert_eq!(check_password(PASSWORD_HASH, ""), PasswordCheck::Mismatch);
}

#[test]
fn password_check_reports_an_unusable_hash() {
    assert_eq!(check_password("", "password"), PasswordCheck::Unusable);
    assert_eq!(check_password("password", "password"), PasswordCheck::Unusable);
    assert_eq!(check_password("$argon2i$v=19$m=4096", "password"), PasswordCheck::Unusable);
}

#[test]
fn password_check_with_a_fresh_hash() {
    let mut cost = argon2::Config::default();
    cost.mem_cost = 64;
    cost.time_cost = 1;
    let encoded = argon2::hash_encoded(b"correct horse", b"battery staple", &cost).unwrap();
    assert_eq!(check_password(&encoded, "correct horse"), PasswordCheck::Match);
    assert_eq!(check_password(&encoded, "correct horse "), PasswordCheck::Mismatch);
}

#[test]
fn unknown_email_is_refused_as_invalid_credentials() {
    let r = basic_at(&config(), None, "password", 1_700_000_000);
    let e = r.err().expect("no session for an unknown email");
    assert_eq!(e, AuthError::InvalidCredentials);
    assert_eq!(e.status_code(), 400);
    assert_eq!(e.message(), "Invalid credentials provided!");
}

#[test]
fn wrong_password_is_refused_like_an_unknown_email() {
    let user = alice();
    let wrong = basic_at(&config(), Some(&user), "not the password", 1_700_000_000).err();
    let unknown = basic_at(&config(), None, "not the password", 1_700_000_000).err();
    assert_eq!(wrong, Some(AuthError::InvalidCredentials));
    assert_eq!(wrong, unknown);
    assert_eq!(wrong.unwrap().status_code(), unknown.unwrap().status_code());
    assert_eq!(wrong.unwrap().message(), unknown.unwrap().message());
}

#[test]
fn unusable_stored_hash_is_a_fault() {
    let mut user = alice();
    user.password = "not an encoded hash".to_string();
    let e = basic_at(&config(), Some(&user), "password", 1_700_000_000).err();
    assert_eq!(e, Some(AuthError::Internal));
    assert_eq!(e.unwrap().status_code(), 500);
}

#[test]
fn correct_password_starts_a_week_long_session() {
    let user = alice();
    let now: i64 = 1_700_000_000;
    let ok = basic_at(&config(), Some(&user), "password", now).expect("login succeeds");
    assert_eq!(ok.status, 200);
    assert_eq!(ok.message, "You have logged in");
    assert_eq!(ok.cookie.name, "auth-token");
    assert_eq!(ok.cookie.path, "/");
    assert!(ok.cookie.http_only);
    assert!(ok.cookie.secure);
    assert_eq!(ok.cookie.expires, now + 604800);
    assert_eq!(ok.cookie.expires, 1_700_604_800);
    let claims = read_jwt_string(&ok.cookie.value, b"signing key").expect("token verifies");
    assert_eq!(claims.subject.as_deref(), Some("42"));
    assert_eq!(claims.expiration, Some(1_700_604_800));
    assert_eq!(claims.issuer.as_deref(), Some("localhost"));
}

#[test]
fn cookie_transport_restriction_follows_the_configuration() {
    let user = alice();
    let plain = config().with_secure_cookie(false);
    let ok = basic_at(&plain, Some(&user), "password", 0).unwrap();
    assert!(!ok.cookie.secure);
    assert!(ok.cookie.http_only);
    assert_eq!(ok.cookie.expires, 604800);
}

#[test]
fn issued_token_authenticates_until_it_expires() {
    let user = alice();
    let now: i64 = 1_700_000_000;
    let ok = basic_at(&config(), Some(&user), "password", now).unwrap();
    let token = ok.cookie.value.as_str();
    assert_eq!(authenticate_at(&config(), Some(token), now), Ok(42));
    assert_eq!(authenticate_at(&config(), Some(token), now + 604799), Ok(42));
    assert_eq!(authenticate_at(&config(), Some(token), now + 604800), Err(AuthError::Unauthorized));
    assert_eq!(authenticate_at(&config(), Some(token), i64::MAX), Err(AuthError::Unauthorized));
}

#[test]
fn login_at_the_end_of_time_is_a_fault() {
    let user = alice();
    let e = basic_at(&config(), Some(&user), "password", i64::MAX).err();
    assert_eq!(e, Some(AuthError::Internal));
    let e = basic_at(&config(), Some(&user), "password", i64::MAX - 604799).err();
    assert_eq!(e, Some(AuthError::Internal));
    assert!(basic_at(&config(), Some(&user), "password", i64::MAX - 604800).is_ok());
}

#[test]
fn session_lasts_604800_seconds() {
    assert_eq!(SESSION_SECONDS, 604800);
    assert_eq!(SESSION_SECONDS, 7 * 24 * 60 * 60);
    assert_eq!(session_expiry(0), Some(604800));
    assert_eq!(session_expiry(-604800), Some(0));
    assert_eq!(session_expiry(i64::MAX - 604800), Some(i64::MAX));
    assert_eq!(session_expiry(i64::MAX - 604799), None);
    assert_eq!(session_expiry(i64::MIN), Some(i64::MIN + 604800));
}

#[test]
fn login_by_the_clock_expires_in_the_future() {
    let user = alice();
    let ok = basic(&config(), Some(&user), "password").expect("login succeeds");
    assert!(ok.cookie.expires > 1_600_000_000 + 604800);
    let claims = read_jwt_string(&ok.cookie.value, b"signing key").unwrap();
    assert_eq!(claims.expiration, Some(ok.cookie.expires as u64));
    assert_eq!(claims.subject.as_deref(), Some("42"));
    assert_eq!(basic(&config(), None, "password").err(), Some(AuthError::InvalidCredentials));
}

#[test]
fn credentials_are_judged_by_the_password_check() {
    assert_eq!(judge_credentials(None), Err(AuthError::InvalidCredentials));
    assert_eq!(judge_credentials(Some(PasswordCheck::Mismatch)), Err(AuthError::InvalidCredentials));
    assert_eq!(judge_credentials(Some(PasswordCheck::Unusable)), Err(AuthError::Internal));
    assert_eq!(judge_credentials(Some(PasswordCheck::Match)), Ok(()));
}

#[test]
fn session_answer_carries_the_token() {
    let s = session_answer("a.b.c".to_string(), 1_700_604_800, false);
    assert_eq!(s.status, 200);
    assert_eq!(s.message, "You have logged in");
    assert_eq!(s.cookie.name, "auth-token");
    assert_eq!(s.cookie.value, "a.b.c");
    assert_eq!(s.cookie.path, "/");
    assert!(s.cookie.http_only);
    assert!(!s.cookie.secure);
    assert_eq!(s.cookie.expires, 1_700_604_800);
    assert!(session_answer(String::new(), 0, true).cookie.secure);
}
