//! The key schema: the disjoint namespaces that address every persisted
//! record. No two distinct logical references ever share a key.

use vstd::prelude::*;

verus! {

/// An externally-authenticated principal address. Identities are opaque to
/// the registry: they are only stored, compared for equality, and handed
/// back, so a plain integer carries them.
pub type Address = u64;

/// A key addressing one persisted record. Each variant is a namespace of its
/// own, so records of different kinds can never collide.
pub enum DataKey {
    /// The admin marker recorded once at initialization.
    Admin,
    /// The counter holding the id of the next entity to create.
    NextEntityId,
    /// One entity, by id.
    Entity(u32),
    /// The append-only list of all entity ids in creation order.
    EntityList,
    /// The role held by an identity.
    Role(Address),
    /// One attribute of an entity, by entity id and attribute key.
    Attribute(u32, String),
    /// One global configuration entry, by key.
    Config(String),
}

/// The namespace tag of a key.
pub open spec fn key_namespace(k: DataKey) -> int {
    match k {
        DataKey::Admin => 0,
        DataKey::NextEntityId => 1,
        DataKey::Entity(_) => 2,
        DataKey::EntityList => 3,
        DataKey::Role(_) => 4,
        DataKey::Attribute(_, _) => 5,
        DataKey::Config(_) => 6,
    }
}

/// Keys of different namespaces are never equal: the schema keeps every
/// record kind in a key space of its own.
pub proof fn lemma_key_namespaces_disjoint(k1: DataKey, k2: DataKey)
    requires
        key_namespace(k1) != key_namespace(k2),
    ensures
        k1 != k2,
{
}

/// Within one namespace, distinct payloads give distinct keys: two entities,
/// two roles, two attributes or two configuration entries never collide.
pub proof fn lemma_keys_injective(id1: u32, id2: u32, a1: Address, a2: Address)
    ensures
        DataKey::Entity(id1) == DataKey::Entity(id2) ==> id1 == id2,
        DataKey::Role(a1) == DataKey::Role(a2) ==> a1 == a2,
{
}

} // verus!
