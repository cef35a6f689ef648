//! The authorization guard: given the already-authenticated caller, decides
//! whether an operation proceeds, by the caller's role or by its ownership
//! of the touched entity. A denial aborts the whole call with no effect.

use vstd::prelude::*;
use crate::keys::Address;
use crate::roles::{satisfies, spec_satisfies, Role};
use crate::store::{Registry, RegistryView};

verus! {

/// The caller's role meets the required minimum.
pub open spec fn can_act_as(v: RegistryView, caller: Address, required: Role) -> bool {
    spec_satisfies(v.role_of(caller), required)
}

/// The rule gating `update_entity` and `set_attribute`: a role of at least
/// `Manager`, or ownership of the entity.
pub open spec fn can_modify_entity(v: RegistryView, caller: Address, id: u32) -> bool
    recommends
        v.has_entity(id),
{
    spec_satisfies(v.role_of(caller), Role::Manager) || v.entity_at(id).owner == caller
}

/// The rule gating `transfer_ownership`: a role of at least `Admin`, or
/// ownership of the entity.
pub open spec fn can_transfer_entity(v: RegistryView, caller: Address, id: u32) -> bool
    recommends
        v.has_entity(id),
{
    spec_satisfies(v.role_of(caller), Role::Admin) || v.entity_at(id).owner == caller
}

/// Decides the role-gated rule for `caller`.
pub(crate) fn check_role(s: &Registry, caller: Address, required: Role) -> (r: bool)
    ensures
        r == can_act_as(s@, caller, required),
{
    satisfies(s.lookup_role(caller), required)
}

/// An identity that passes any check above `NoAccess` has a stored role, so
/// the registry has been initialized: before initialization no role binding
/// exists.
pub proof fn lemma_privileged_implies_initialized(v: RegistryView, caller: Address, required: Role)
    requires
        v.wf(),
        spec_satisfies(v.role_of(caller), required),
        required != Role::NoAccess,
    ensures
        v.initialized(),
{
    if !v.initialized() {
        assert(v.roles.len() == 0);
        assert(v.role_of(caller) == Role::NoAccess);
    }
}

/// A registry holding any entity has been initialized: entities are created
/// only after initialization.
pub proof fn lemma_entity_implies_initialized(v: RegistryView, id: u32)
    requires
        v.wf(),
        v.has_entity(id),
    ensures
        v.initialized(),
{
}

} // verus!
