//! The library's general guarantees, stated once over the views and
//! predicates the operation contracts speak of, and proved for every state
//! and input the registry can reach.

use vstd::prelude::*;
use crate::assoc::assoc_lookup;
use crate::auth::{can_act_as, can_modify_entity, can_transfer_entity};
use crate::keys::Address;
use crate::roles::{spec_satisfies, Role};
use crate::state::EntityView;
use crate::store::RegistryView;

verus! {

/// Initialization happens at most once: any state a successful `initialize`
/// leaves behind carries the admin marker, and on a marked state
/// `initialize`'s contract forces the `AlreadyInitialized` result with the
/// whole state — admin marker and roles included — unchanged.
pub proof fn lemma_initialize_only_once(v_after: RegistryView, admin: Address)
    requires
        v_after.admin == Option::Some(admin),
    ensures
        v_after.initialized(),
{
}

/// An identity holding a role at least as high as `required` passes the
/// role-gated check for `required`; where `required` is at least `Manager`
/// it passes the modify gate of any entity, and where it is at least
/// `Admin` the transfer gate too.
pub proof fn lemma_hierarchy_passes_checks(
    v: RegistryView,
    caller: Address,
    required: Role,
    id: u32,
)
    requires
        spec_satisfies(v.role_of(caller), required),
    ensures
        can_act_as(v, caller, required),
        spec_satisfies(required, Role::Manager) ==> can_modify_entity(v, caller, id),
        spec_satisfies(required, Role::Admin) ==> can_transfer_entity(v, caller, id),
{
}

/// Ids are assigned 1, 2, 3, ... strictly in creation order: in every
/// well-formed state the entity index lists exactly the ids created so far,
/// in that order, each carried by the entity it names, and the counter
/// stands one past the last assigned id.
pub proof fn lemma_ids_sequential(v: RegistryView)
    requires
        v.wf(),
    ensures
        forall|i: int| 0 <= i < v.entity_list.len() ==> (#[trigger] v.entity_list[i]) as int == i
            + 1,
        forall|i: int|
            0 <= i < v.entity_list.len() ==> #[trigger] v.entities[i].id == v.entity_list[i],
        v.next_id as int == v.entity_list.len() + 1,
{
}

/// Ownership overrides the role order: the owner of an entity passes its
/// modify gate whatever role it holds, `NoAccess` included.
pub proof fn lemma_owner_may_modify(v: RegistryView, caller: Address, id: u32)
    requires
        v.has_entity(id),
        v.entity_at(id).owner == caller,
    ensures
        can_modify_entity(v, caller, id),
        can_transfer_entity(v, caller, id),
{
}

/// An identity that neither owns an entity nor holds at least `Manager`
/// fails the entity's modify gate, so `update_entity` and `set_attribute`
/// report `Unauthorized` for it.
pub proof fn lemma_stranger_may_not_modify(v: RegistryView, caller: Address, id: u32)
    requires
        v.has_entity(id),
        v.entity_at(id).owner != caller,
        !spec_satisfies(v.role_of(caller), Role::Manager),
    ensures
        !can_modify_entity(v, caller, id),
{
}

/// The transfer gate opens exactly for the current owner or an `Admin`: a
/// caller below `Admin` that does not own the entity fails it.
pub proof fn lemma_transfer_authority(v: RegistryView, caller: Address, id: u32)
    requires
        v.has_entity(id),
    ensures
        v.entity_at(id).owner == caller ==> can_transfer_entity(v, caller, id),
        v.role_of(caller) == Role::Admin ==> can_transfer_entity(v, caller, id),
        v.entity_at(id).owner != caller && !spec_satisfies(v.role_of(caller), Role::Admin)
            ==> !can_transfer_entity(v, caller, id),
{
}

/// Rewriting one entity's record changes exactly what a later read of that
/// id returns: after an update of the record at `id`, `entity_at(id)` is
/// the new record and every other id reads as before.
pub proof fn lemma_entity_after_update(v: RegistryView, id: u32, e: EntityView)
    requires
        v.wf(),
        v.has_entity(id),
    ensures
        ({
            let v2 = RegistryView { entities: v.entities.update(id - 1, e), ..v };
            &&& v2.has_entity(id)
            &&& v2.entity_at(id) == e
            &&& forall|id2: u32|
                v.has_entity(id2) && id2 != id ==> #[trigger] v2.entity_at(id2) == v.entity_at(
                    id2,
                )
        }),
{
}

/// A configuration key never written reads as empty text, not as an error.
pub proof fn lemma_unset_config_reads_empty(v: RegistryView, key: Seq<char>)
    requires
        assoc_lookup(v.config, key) is None,
    ensures
        v.config_of(key) == Seq::<char>::empty(),
{
}

/// An attribute pair never written reads as empty text, not as an error,
/// whenever the entity itself exists.
pub proof fn lemma_unset_attribute_reads_empty(v: RegistryView, id: u32, key: Seq<char>)
    requires
        assoc_lookup(v.attributes, (id, key)) is None,
    ensures
        v.attr_of(id, key) == Seq::<char>::empty(),
{
}

/// On a fresh registry every lookup yields its default: empty text for
/// configuration entries and attributes, `NoAccess` for roles.
pub proof fn lemma_fresh_reads_default(key: Seq<char>, id: u32, a: Address)
    ensures
        RegistryView::empty().config_of(key) == Seq::<char>::empty(),
        RegistryView::empty().attr_of(id, key) == Seq::<char>::empty(),
        RegistryView::empty().role_of(a) == Role::NoAccess,
{
}

} // verus!
