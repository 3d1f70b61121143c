//! The error taxonomy of the lifecycle controller.

use vstd::prelude::*;

verus! {

/// Why a lifecycle operation was rejected.  Every failure aborts the whole
/// operation with no partial state change.
#[derive(Debug, Clone, Copy, PartialEq, Eq, Structural)]
pub enum LifecycleError {
    /// The caller is not the expected signer, or the stored authority does
    /// not match the recomputed derived authority.
    Authorization,
    /// The owning account already exists on create, or does not exist on an
    /// operation that requires it.
    Precondition,
    /// The scheduling registry rejected a create, pause or delete request
    /// (duplicate task, insufficient funds, no viable derivation).
    ExternalCollaborator,
}

} // verus!
