use vstd::prelude::*;

verus! {

/// The three ways a login or a guarded request is turned away.
#[derive(Clone, Copy, Debug, PartialEq, Eq, Structural)]
pub enum AuthError {
    /// Unknown email or wrong password; the two are deliberately not told apart.
    InvalidCredentials,
    /// No session, a session that does not verify, or a role that is too low.
    Unauthorized,
    /// A fault on the server's side.
    Internal,
}

impl AuthError {
    pub open spec fn status(self) -> u16 {
        match self {
            AuthError::InvalidCredentials => 400,
            AuthError::Unauthorized => 401,
            AuthError::Internal => 500,
        }
    }

    pub open spec fn text(self) -> Seq<char> {
        match self {
            AuthError::InvalidCredentials => "Invalid credentials provided!"@,
            AuthError::Unauthorized => "Unauthorized"@,
            AuthError::Internal => "Internal server error"@,
        }
    }

    /// HTTP status that the client sees.
    pub fn status_code(self) -> (code: u16)
        ensures
            code == self.status(),
    {
        match self {
            AuthError::InvalidCredentials => 400,
            AuthError::Unauthorized => 401,
            AuthError::Internal => 500,
        }
    }

    /// Message body that the client sees.
    pub fn message(self) -> (m: String)
        ensures
            m@ == self.text(),
    {
        match self {
            AuthError::InvalidCredentials => "Invalid credentials provided!".to_owned(),
            AuthError::Unauthorized => "Unauthorized".to_owned(),
            AuthError::Internal => "Internal server error".to_owned(),
        }
    }
}

} // verus!
