//! The registry operations: every state-changing and read operation, each
//! authorized before it touches anything, atomic on failure, and audited
//! exactly once on success.

use vstd::prelude::*;
use crate::auth::{
    can_act_as, can_modify_entity, can_transfer_entity, check_role,
    lemma_entity_implies_initialized, lemma_privileged_implies_initialized,
};
use crate::keys::Address;
use crate::roles::{satisfies, Role};
use crate::state::{Action, Entity, EntityView, Error, Transaction};
use crate::store::{Registry, RegistryView};

verus! {

/// The registry's operation surface. The store is an explicit handle: the
/// host environment serializes calls, callers arrive already authenticated,
/// and `now` carries the host clock's monotonically non-decreasing
/// timestamp.
pub struct AdaptableContract;

impl AdaptableContract {
    /// Records the admin marker, resets the id counter and the entity
    /// index, grants `admin` the `Admin` role and emits the initialization
    /// record — or reports `AlreadyInitialized`, changing nothing, if a
    /// marker is already present.
    pub fn initialize(s: &mut Registry, admin: Address, now: u64) -> (r: Result<(), Error>)
        requires
            old(s)@.wf(),
        ensures
            final(s)@.wf(),
            old(s)@.initialized() ==> r == Err::<(), Error>(Error::AlreadyInitialized) && final(s)@ == old(s)@,
            !old(s)@.initialized() ==> r == Ok::<(), Error>(()),
            !old(s)@.initialized() ==> final(s)@.initialized() && final(s)@.admin
                == Option::Some(admin),
            !old(s)@.initialized() ==> final(s)@.next_id == 1 && final(s)@.entities
                =~= Seq::<EntityView>::empty() && final(s)@.entity_list =~= Seq::<u32>::empty(),
            !old(s)@.initialized() ==> final(s)@.role_of(admin) == Role::Admin,
            !old(s)@.initialized() ==> forall|b: Address|
                b != admin ==> final(s)@.role_of(b) == old(s)@.role_of(b),
            !old(s)@.initialized() ==> final(s)@.attributes == old(s)@.attributes && final(s)@.config == old(s)@.config,
            !old(s)@.initialized() ==> final(s)@.events =~= old(s)@.events.push(
                (Transaction {
                    entity_id: 0,
                    action: Action::Init,
                    performed_by: admin,
                    timestamp: now,
                }),
            ),
    {
        if s.has_admin_marker() {
            return Err(Error::AlreadyInitialized);
        }
        let ghost v0 = s@;
        s.init_markers(admin);
        let ghost v1 = s@;
        s.store_role(admin, Role::Admin);
        let ghost v2 = s@;
        s.push_event(
            Transaction { entity_id: 0, action: Action::Init, performed_by: admin, timestamp: now },
        );
        proof {
            assert(v1.roles =~= v0.roles);
            assert(s@.roles == v2.roles);
            assert forall|b: Address| b != admin implies s@.role_of(b) == v0.role_of(b) by {
                assert(v2.role_of(b) == v1.role_of(b));
            }
        }
        Ok(())
    }

    /// Writes one configuration entry. Admin-gated; on a denial nothing
    /// changes and `Unauthorized` is reported.
    pub fn set_config(
        s: &mut Registry,
        caller: Address,
        key: String,
        value: String,
        now: u64,
    ) -> (r: Result<(), Error>)
        requires
            old(s)@.wf(),
        ensures
            final(s)@.wf(),
            !can_act_as(old(s)@, caller, Role::Admin) ==> r == Err::<(), Error>(
                Error::Unauthorized,
            ) && final(s)@ == old(s)@,
            can_act_as(old(s)@, caller, Role::Admin) ==> r == Ok::<(), Error>(()),
            can_act_as(old(s)@, caller, Role::Admin) ==> final(s)@.config_of(key@) == value@,
            can_act_as(old(s)@, caller, Role::Admin) ==> forall|k2: Seq<char>|
                k2 != key@ ==> final(s)@.config_of(k2) == old(s)@.config_of(k2),
            can_act_as(old(s)@, caller, Role::Admin) ==> final(s)@ == (RegistryView {
                config: final(s)@.config,
                events: final(s)@.events,
                ..old(s)@
            }),
            can_act_as(old(s)@, caller, Role::Admin) ==> final(s)@.events =~= old(s)@.events.push(
                (Transaction {
                    entity_id: 0,
                    action: Action::ConfigSet,
                    performed_by: caller,
                    timestamp: now,
                }),
            ),
    {
        if !check_role(s, caller, Role::Admin) {
            return Err(Error::Unauthorized);
        }
        proof {
            lemma_privileged_implies_initialized(s@, caller, Role::Admin);
        }
        s.store_config(key, value);
        s.push_event(
            Transaction {
                entity_id: 0,
                action: Action::ConfigSet,
                performed_by: caller,
                timestamp: now,
            },
        );
        Ok(())
    }

    /// Reads one configuration entry; an unset key reads as empty text,
    /// never as an error.
    pub fn get_config(s: &Registry, key: &String) -> (r: String)
        ensures
            r@ == s@.config_of(key@),
    {
        s.read_config(key)
    }

    /// Binds `address` to `role`, unconditionally overwriting any prior
    /// role. Admin-gated; on a denial nothing changes and `Unauthorized` is
    /// reported.
    pub fn set_role(
        s: &mut Registry,
        caller: Address,
        address: Address,
        role: Role,
        now: u64,
    ) -> (r: Result<(), Error>)
        requires
            old(s)@.wf(),
        ensures
            final(s)@.wf(),
            !can_act_as(old(s)@, caller, Role::Admin) ==> r == Err::<(), Error>(
                Error::Unauthorized,
            ) && final(s)@ == old(s)@,
            can_act_as(old(s)@, caller, Role::Admin) ==> r == Ok::<(), Error>(()),
            can_act_as(old(s)@, caller, Role::Admin) ==> final(s)@.role_of(address) == role,
            can_act_as(old(s)@, caller, Role::Admin) ==> forall|b: Address|
                b != address ==> final(s)@.role_of(b) == old(s)@.role_of(b),
            can_act_as(old(s)@, caller, Role::Admin) ==> final(s)@ == (RegistryView {
                roles: final(s)@.roles,
                events: final(s)@.events,
                ..old(s)@
            }),
            can_act_as(old(s)@, caller, Role::Admin) ==> final(s)@.events =~= old(s)@.events.push(
                (Transaction {
                    entity_id: 0,
                    action: Action::RoleSet,
                    performed_by: caller,
                    timestamp: now,
                }),
            ),
    {
        if !check_role(s, caller, Role::Admin) {
            return Err(Error::Unauthorized);
        }
        proof {
            lemma_privileged_implies_initialized(s@, caller, Role::Admin);
        }
        s.store_role(address, role);
        s.push_event(
            Transaction {
                entity_id: 0,
                action: Action::RoleSet,
                performed_by: caller,
                timestamp: now,
            },
        );
        Ok(())
    }

    /// The role of `address`; an identity with no recorded role reads as
    /// `NoAccess`, never as an error.
    pub fn get_role(s: &Registry, address: Address) -> (r: Role)
        ensures
            r == s@.role_of(address),
    {
        s.lookup_role(address)
    }

    /// Creates an entity: assigns the counter's id, stores the record with
    /// both timestamps at `now` and the active flag set, appends the id to
    /// the entity index, bumps the counter and emits the creation record.
    /// Gated on a role of at least `Manager`.
    pub fn create_entity(
        s: &mut Registry,
        caller: Address,
        name: String,
        owner: Address,
        now: u64,
    ) -> (r: Result<u32, Error>)
        requires
            old(s)@.wf(),
            old(s)@.next_id < u32::MAX,
        ensures
            final(s)@.wf(),
            !can_act_as(old(s)@, caller, Role::Manager) ==> r == Err::<u32, Error>(
                Error::Unauthorized,
            ) && final(s)@ == old(s)@,
            can_act_as(old(s)@, caller, Role::Manager) ==> r == Ok::<u32, Error>(old(s)@.next_id),
            can_act_as(old(s)@, caller, Role::Manager) ==> final(s)@.next_id == old(s)@.next_id
                + 1,
            can_act_as(old(s)@, caller, Role::Manager) ==> final(s)@.entities =~= old(s)@.entities.push(
                (EntityView {
                    id: old(s)@.next_id,
                    name: name@,
                    owner: owner,
                    created_at: now,
                    updated_at: now,
                    active: true,
                }),
            ),
            can_act_as(old(s)@, caller, Role::Manager) ==> final(s)@.entity_list =~= old(s)@.entity_list.push(old(s)@.next_id),
            can_act_as(old(s)@, caller, Role::Manager) ==> final(s)@ == (RegistryView {
                next_id: final(s)@.next_id,
                entities: final(s)@.entities,
                entity_list: final(s)@.entity_list,
                events: final(s)@.events,
                ..old(s)@
            }),
            can_act_as(old(s)@, caller, Role::Manager) ==> final(s)@.events =~= old(s)@.events.push(
                (Transaction {
                    entity_id: old(s)@.next_id,
                    action: Action::Create,
                    performed_by: caller,
                    timestamp: now,
                }),
            ),
    {
        if !check_role(s, caller, Role::Manager) {
            return Err(Error::Unauthorized);
        }
        proof {
            lemma_privileged_implies_initialized(s@, caller, Role::Manager);
        }
        let id = s.next_id_value();
        let e = Entity {
            id,
            name,
            owner,
            created_at: now,
            updated_at: now,
            active: true,
        };
        s.insert_new_entity(e);
        s.push_event(
            Transaction {
                entity_id: id,
                action: Action::Create,
                performed_by: caller,
                timestamp: now,
            },
        );
        Ok(id)
    }

    /// Rewrites an entity's name and active flag and advances its
    /// `updated_at`; owner and `created_at` stay untouched. Reports
    /// `NotFound` for an unknown id, then `Unauthorized` unless the caller
    /// holds at least `Manager` or owns the entity. `now` comes from the
    /// host's monotone clock, so it never precedes the entity's last
    /// update.
    pub fn update_entity(
        s: &mut Registry,
        caller: Address,
        entity_id: u32,
        name: String,
        active: bool,
        now: u64,
    ) -> (r: Result<(), Error>)
        requires
            old(s)@.wf(),
            old(s)@.has_entity(entity_id) ==> now >= old(s)@.entity_at(entity_id).updated_at,
        ensures
            final(s)@.wf(),
            !old(s)@.has_entity(entity_id) ==> r == Err::<(), Error>(Error::NotFound) && final(s)@ == old(s)@,
            old(s)@.has_entity(entity_id) && !can_modify_entity(old(s)@, caller, entity_id) ==> r
                == Err::<(), Error>(Error::Unauthorized) && final(s)@ == old(s)@,
            old(s)@.has_entity(entity_id) && can_modify_entity(old(s)@, caller, entity_id) ==> r
                == Ok::<(), Error>(()),
            old(s)@.has_entity(entity_id) && can_modify_entity(old(s)@, caller, entity_id) ==>
                final(s)@.entities =~= old(s)@.entities.update(
                entity_id - 1,
                (EntityView {
                    name: name@,
                    active: active,
                    updated_at: now,
                    ..old(s)@.entity_at(entity_id)
                }),
            ),
            old(s)@.has_entity(entity_id) && can_modify_entity(old(s)@, caller, entity_id) ==>
                final(s)@ == (RegistryView {
                entities: final(s)@.entities,
                events: final(s)@.events,
                ..old(s)@
            }),
            old(s)@.has_entity(entity_id) && can_modify_entity(old(s)@, caller, entity_id) ==>
                final(s)@.events =~= old(s)@.events.push(
                (Transaction {
                    entity_id: entity_id,
                    action: Action::Update,
                    performed_by: caller,
                    timestamp: now,
                }),
            ),
    {
        if !s.entity_exists(entity_id) {
            return Err(Error::NotFound);
        }
        let e = s.read_entity(entity_id);
        let role = s.lookup_role(caller);
        if !(satisfies(role, Role::Manager) || e.owner == caller) {
            return Err(Error::Unauthorized);
        }
        proof {
            lemma_entity_implies_initialized(s@, entity_id);
            assert(s@.entity_at(entity_id).id == entity_id);
        }
        let updated = Entity {
            id: e.id,
            name,
            owner: e.owner,
            created_at: e.created_at,
            updated_at: now,
            active,
        };
        s.write_entity(entity_id, updated);
        s.push_event(
            Transaction {
                entity_id,
                action: Action::Update,
                performed_by: caller,
                timestamp: now,
            },
        );
        Ok(())
    }

    /// A copy of the entity with id `entity_id`, or `NotFound`.
    pub fn get_entity(s: &Registry, entity_id: u32) -> (r: Result<Entity, Error>)
        ensures
            s@.has_entity(entity_id) ==> (r matches Ok(e) && e@ == s@.entity_at(entity_id)),
            !s@.has_entity(entity_id) ==> r == Err::<Entity, Error>(Error::NotFound),
    {
        if !s.entity_exists(entity_id) {
            return Err(Error::NotFound);
        }
        Ok(s.read_entity(entity_id))
    }

    /// All entity ids, in creation order.
    pub fn list_entities(s: &Registry) -> (r: Vec<u32>)
        ensures
            r@ =~= s@.entity_list,
    {
        s.read_entity_list()
    }

    /// Writes one attribute of an entity, overwriting any earlier value.
    /// Reports `NotFound` for an unknown id, then `Unauthorized` unless the
    /// caller holds at least `Manager` or owns the entity.
    pub fn set_attribute(
        s: &mut Registry,
        caller: Address,
        entity_id: u32,
        key: String,
        value: String,
        now: u64,
    ) -> (r: Result<(), Error>)
        requires
            old(s)@.wf(),
        ensures
            final(s)@.wf(),
            !old(s)@.has_entity(entity_id) ==> r == Err::<(), Error>(Error::NotFound) && final(s)@ == old(s)@,
            old(s)@.has_entity(entity_id) && !can_modify_entity(old(s)@, caller, entity_id) ==> r
                == Err::<(), Error>(Error::Unauthorized) && final(s)@ == old(s)@,
            old(s)@.has_entity(entity_id) && can_modify_entity(old(s)@, caller, entity_id) ==> r
                == Ok::<(), Error>(()),
            old(s)@.has_entity(entity_id) && can_modify_entity(old(s)@, caller, entity_id) ==>
                final(s)@.attr_of(entity_id, key@) == value@,
            old(s)@.has_entity(entity_id) && can_modify_entity(old(s)@, caller, entity_id) ==>
                forall|id2: u32, k2: Seq<char>|
                !(id2 == entity_id && k2 == key@) ==> final(s)@.attr_of(id2, k2) == old(s)@.attr_of(id2, k2),
            old(s)@.has_entity(entity_id) && can_modify_entity(old(s)@, caller, entity_id) ==>
                final(s)@ == (RegistryView {
                attributes: final(s)@.attributes,
                events: final(s)@.events,
                ..old(s)@
            }),
            old(s)@.has_entity(entity_id) && can_modify_entity(old(s)@, caller, entity_id) ==>
                final(s)@.events =~= old(s)@.events.push(
                (Transaction {
                    entity_id: entity_id,
                    action: Action::AttrSet,
                    performed_by: caller,
                    timestamp: now,
                }),
            ),
    {
        if !s.entity_exists(entity_id) {
            return Err(Error::NotFound);
        }
        let e = s.read_entity(entity_id);
        let role = s.lookup_role(caller);
        if !(satisfies(role, Role::Manager) || e.owner == caller) {
            return Err(Error::Unauthorized);
        }
        proof {
            lemma_entity_implies_initialized(s@, entity_id);
        }
        s.store_attr(entity_id, key, value);
        s.push_event(
            Transaction {
                entity_id,
                action: Action::AttrSet,
                performed_by: caller,
                timestamp: now,
            },
        );
        Ok(())
    }

    /// Reads one attribute of an entity; an unset key reads as empty text.
    /// Only an unknown entity id is an error.
    pub fn get_attribute(s: &Registry, entity_id: u32, key: &String) -> (r: Result<String, Error>)
        ensures
            s@.has_entity(entity_id) ==> (r matches Ok(v) && v@ == s@.attr_of(entity_id, key@)),
            !s@.has_entity(entity_id) ==> r == Err::<String, Error>(Error::NotFound),
    {
        if !s.entity_exists(entity_id) {
            return Err(Error::NotFound);
        }
        Ok(s.read_attr(entity_id, key))
    }

    /// Hands an entity to a new owner and advances its `updated_at`; name,
    /// active flag and `created_at` stay untouched. Reports `NotFound` for
    /// an unknown id, then `Unauthorized` unless the caller holds `Admin`
    /// or owns the entity. `now` comes from the host's monotone clock, so
    /// it never precedes the entity's last update.
    pub fn transfer_ownership(
        s: &mut Registry,
        caller: Address,
        entity_id: u32,
        new_owner: Address,
        now: u64,
    ) -> (r: Result<(), Error>)
        requires
            old(s)@.wf(),
            old(s)@.has_entity(entity_id) ==> now >= old(s)@.entity_at(entity_id).updated_at,
        ensures
            final(s)@.wf(),
            !old(s)@.has_entity(entity_id) ==> r == Err::<(), Error>(Error::NotFound) && final(s)@ == old(s)@,
            old(s)@.has_entity(entity_id) && !can_transfer_entity(old(s)@, caller, entity_id) ==> r
                == Err::<(), Error>(Error::Unauthorized) && final(s)@ == old(s)@,
            old(s)@.has_entity(entity_id) && can_transfer_entity(old(s)@, caller, entity_id) ==> r
                == Ok::<(), Error>(()),
            old(s)@.has_entity(entity_id) && can_transfer_entity(old(s)@, caller, entity_id) ==>
                final(s)@.entities =~= old(s)@.entities.update(
                entity_id - 1,
                (EntityView {
                    owner: new_owner,
                    updated_at: now,
                    ..old(s)@.entity_at(entity_id)
                }),
            ),
            old(s)@.has_entity(entity_id) && can_transfer_entity(old(s)@, caller, entity_id) ==>
                final(s)@ == (RegistryView {
                entities: final(s)@.entities,
                events: final(s)@.events,
                ..old(s)@
            }),
            old(s)@.has_entity(entity_id) && can_transfer_entity(old(s)@, caller, entity_id) ==>
                final(s)@.events =~= old(s)@.events.push(
                (Transaction {
                    entity_id: entity_id,
                    action: Action::Transfer,
                    performed_by: caller,
                    timestamp: now,
                }),
            ),
    {
        if !s.entity_exists(entity_id) {
            return Err(Error::NotFound);
        }
        let e = s.read_entity(entity_id);
        let role = s.lookup_role(caller);
        if !(satisfies(role, Role::Admin) || e.owner == caller) {
            return Err(Error::Unauthorized);
        }
        proof {
            lemma_entity_implies_initialized(s@, entity_id);
            assert(s@.entity_at(entity_id).id == entity_id);
        }
        let updated = Entity {
            id: e.id,
            name: e.name,
            owner: new_owner,
            created_at: e.created_at,
            updated_at: now,
            active: e.active,
        };
        s.write_entity(entity_id, updated);
        s.push_event(
            Transaction {
                entity_id,
                action: Action::Transfer,
                performed_by: caller,
                timestamp: now,
            },
        );
        Ok(())
    }
}

} // verus!
