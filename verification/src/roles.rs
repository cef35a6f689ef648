//! The role hierarchy: a total order over the four permission tiers and the
//! comparison rule every role-gated authorization check uses.

use vstd::prelude::*;

verus! {

/// A permission tier. The tiers form a total order
/// `Admin > Manager > Viewer > NoAccess`; an identity with no recorded role
/// implicitly holds `NoAccess`.
#[derive(Clone, Copy, PartialEq, Eq, Structural, Debug)]
pub enum Role {
    /// Full administrative access.
    Admin,
    /// May manage entities but not change system settings.
    Manager,
    /// May view but not modify entities.
    Viewer,
    /// No access to the system.
    NoAccess,
}

/// The numeric rank of a role in the total order.
pub open spec fn role_rank(r: Role) -> int {
    match r {
        Role::Admin => 3,
        Role::Manager => 2,
        Role::Viewer => 1,
        Role::NoAccess => 0,
    }
}

/// `held` satisfies `required` exactly when `held >= required` in the
/// hierarchy's total order.
pub open spec fn spec_satisfies(held: Role, required: Role) -> bool {
    role_rank(held) >= role_rank(required)
}

/// Returns the rank of `r` as an executable value.
pub fn rank_of(r: Role) -> (n: u8)
    ensures
        n as int == role_rank(r),
{
    match r {
        Role::Admin => 3,
        Role::Manager => 2,
        Role::Viewer => 1,
        Role::NoAccess => 0,
    }
}

/// Decides whether a held role meets a required minimum role.
pub fn satisfies(held: Role, required: Role) -> (r: bool)
    ensures
        r == spec_satisfies(held, required),
{
    rank_of(held) >= rank_of(required)
}

/// The hierarchy is transitive: an identity holding a role at least as high
/// as `mid` passes every check that `mid` passes.
pub proof fn lemma_role_hierarchy(held: Role, mid: Role, required: Role)
    requires
        spec_satisfies(held, mid),
        spec_satisfies(mid, required),
    ensures
        spec_satisfies(held, required),
{
}

/// `Admin` is the top of the hierarchy: it satisfies every requirement.
pub proof fn lemma_admin_satisfies_all(required: Role)
    ensures
        spec_satisfies(Role::Admin, required),
{
}

} // verus!
