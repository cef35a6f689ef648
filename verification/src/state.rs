//! The registry's record types: entities, audit transactions, and the error
//! kinds every operation can report.

use vstd::prelude::*;
use crate::keys::Address;

verus! {

/// A named, owned registry record with lifecycle timestamps and an active
/// flag. Its id and `created_at` never change after creation, and
/// `updated_at` never falls below `created_at`.
pub struct Entity {
    /// Unique identifier, assigned 1, 2, 3, ... in creation order.
    pub id: u32,
    /// Name of the entity.
    pub name: String,
    /// Owner address.
    pub owner: Address,
    /// Creation timestamp.
    pub created_at: u64,
    /// Timestamp of the last mutation.
    pub updated_at: u64,
    /// Active status.
    pub active: bool,
}

/// The mathematical value of an [`Entity`].
#[verifier::ext_equal]
pub ghost struct EntityView {
    pub id: u32,
    pub name: Seq<char>,
    pub owner: Address,
    pub created_at: u64,
    pub updated_at: u64,
    pub active: bool,
}

impl View for Entity {
    type V = EntityView;

    open spec fn view(&self) -> EntityView {
        EntityView {
            id: self.id,
            name: self.name@,
            owner: self.owner,
            created_at: self.created_at,
            updated_at: self.updated_at,
            active: self.active,
        }
    }
}

impl Clone for Entity {
    fn clone(&self) -> (r: Self)
        ensures
            r@ == self@,
    {
        Entity {
            id: self.id,
            name: self.name.clone(),
            owner: self.owner,
            created_at: self.created_at,
            updated_at: self.updated_at,
            active: self.active,
        }
    }
}

/// The action a completed mutation performed, recorded in its audit entry.
#[derive(Clone, Copy, PartialEq, Eq, Structural, Debug)]
pub enum Action {
    /// The registry was initialized.
    Init,
    /// A configuration entry was written.
    ConfigSet,
    /// A role was assigned.
    RoleSet,
    /// An entity was created.
    Create,
    /// An entity's name or active flag was rewritten.
    Update,
    /// An attribute of an entity was written.
    AttrSet,
    /// An entity's ownership was transferred.
    Transfer,
}

/// One audit record: emitted exactly once per completed mutation, never for
/// reads or for calls that aborted. For mutations that touch no entity
/// (initialization, configuration, role assignment) `entity_id` is 0.
#[derive(Clone, Copy, PartialEq, Eq, Structural, Debug)]
pub struct Transaction {
    /// Entity involved, or 0 where none is.
    pub entity_id: u32,
    /// Action performed.
    pub action: Action,
    /// Address that performed the action.
    pub performed_by: Address,
    /// Timestamp of the action.
    pub timestamp: u64,
}

/// Why an operation aborted. Every failure leaves the registry unchanged and
/// emits no audit record.
#[derive(Clone, Copy, PartialEq, Eq, Structural, Debug)]
pub enum Error {
    /// `initialize` was called on an already-initialized registry.
    AlreadyInitialized,
    /// The caller's role and ownership grant no right to the operation.
    Unauthorized,
    /// The referenced entity id has no record.
    NotFound,
}

} // verus!
