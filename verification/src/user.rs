use vstd::prelude::*;
use crate::role::UserRole;

verus! {

/// A user as the user store holds it. The library only reads such records.
#[derive(Clone, Debug)]
pub struct UserData {
    pub id: i32,
    pub email: String,
    /// Encoded Argon2 hash of the password.
    pub password: String,
    pub role: UserRole,
}

} // verus!
