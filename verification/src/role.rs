use vstd::prelude::*;

verus! {

/// Access level of a user. Roles are totally ordered: `Guest < User < Admin`.
#[derive(Clone, Copy, Debug, PartialEq, Eq, Structural, PartialOrd, Ord, Hash)]
pub enum UserRole {
    Guest,
    User,
    Admin,
}

impl UserRole {
    /// Position of the role in the hierarchy; a higher level includes every lower one.
    pub open spec fn level(self) -> nat {
        match self {
            UserRole::Guest => 0,
            UserRole::User => 1,
            UserRole::Admin => 2,
        }
    }

    /// Whether a holder of this role may use what asks for `required`.
    pub open spec fn permits(self, required: UserRole) -> bool {
        self.level() >= required.level()
    }

    pub fn rank(self) -> (r: u8)
        ensures
            r == self.level(),
    {
        match self {
            UserRole::Guest => 0,
            UserRole::User => 1,
            UserRole::Admin => 2,
        }
    }

    pub fn at_least(self, required: UserRole) -> (b: bool)
        ensures
            b == self.permits(required),
    {
        self.rank() >= required.rank()
    }
}

/// The role order is total: of two roles, one permits what the other requires.
pub proof fn lemma_role_order_total(a: UserRole, b: UserRole)
    ensures
        a.permits(b) || b.permits(a),
        a.permits(b) && b.permits(a) ==> a == b,
        a.permits(a),
{
}

/// The role order is transitive, so a guard for a higher role admits only
/// users that every guard for a lower role admits.
pub proof fn lemma_role_order_transitive(a: UserRole, b: UserRole, c: UserRole)
    requires
        a.permits(b),
        b.permits(c),
    ensures
        a.permits(c),
{
}

} // verus!
