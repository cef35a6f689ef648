//! An access-controlled registry: named, owned entities, global configuration
//! parameters, coarse-grained roles for identities, and an audit record of
//! every completed mutation. Every operation is authorized against the
//! caller's role or its ownership of the touched entity before any state
//! changes; a failed check aborts the call with no effect.
//!
//! The persistent store, the authentication of callers, the clock and the
//! event transport are external collaborators: the registry state is an
//! explicit value threaded through every operation, callers arrive already
//! authenticated, and timestamps come in as plain arguments.

pub mod assoc;
pub mod auth;
pub mod keys;
pub mod laws;
pub mod ops;
pub mod roles;
pub mod state;
pub mod store;

pub use keys::Address;
pub use ops::AdaptableContract;
pub use roles::{satisfies, Role};
pub use state::{Action, Entity, Error, Transaction};
pub use store::Registry;
