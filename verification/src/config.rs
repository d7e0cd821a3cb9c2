use vstd::prelude::*;

verus! {

/// Settings that are fixed at startup and handed to every login and guard.
#[derive(Clone, Debug)]
pub struct AuthConfig {
    /// Secret shared by signing and verification.
    pub jwt_key: Vec<u8>,
    /// Issuer written into every token.
    pub issuer: String,
    /// Whether the session cookie is restricted to encrypted transport.
    pub secure_cookie: bool,
}

impl AuthConfig {
    /// A configuration whose session cookie is restricted to encrypted transport.
    pub fn new(jwt_key: Vec<u8>, issuer: String) -> (c: AuthConfig)
        ensures
            c.jwt_key == jwt_key,
            c.issuer == issuer,
            c.secure_cookie,
    {
        AuthConfig { jwt_key, issuer, secure_cookie: true }
    }

    /// The same configuration with the cookie's transport restriction set to `secure`.
    pub fn with_secure_cookie(self, secure: bool) -> (c: AuthConfig)
        ensures
            c.jwt_key == self.jwt_key,
            c.issuer == self.issuer,
            c.secure_cookie == secure,
    {
        AuthConfig { jwt_key: self.jwt_key, issuer: self.issuer, secure_cookie: secure }
    }
}

} // verus!
