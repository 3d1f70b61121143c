//! Destroying the owning account.

use vstd::prelude::*;

use crate::address::Address;
use crate::errors::LifecycleError;
use crate::ledger::{close_step, Ledger};

verus! {

/// Call context of the close entry point.
#[derive(Debug)]
pub struct CloseAccount {
    /// Receives the account's reclaimed storage rent.
    pub destination: Address,
}

impl CloseAccount {
    /// Destroys the owning account and reclaims its storage for the
    /// destination.  Nothing orders this against delete: a still-registered
    /// task simply finds no account on its next firing and every later
    /// execute fails its existence precondition, whatever authority it
    /// presents.
    pub fn close(&self, ledger: &mut Ledger) -> (r: Result<(), LifecycleError>)
        requires
            old(ledger).wf(),
        ensures
            *final(ledger) == close_step(*old(ledger)).0,
            r == close_step(*old(ledger)).1,
            final(ledger).wf(),
            r is Ok <==> old(ledger).dummy_account is Some,
            r is Ok ==> final(ledger).dummy_account is None,
            r is Err ==> *final(ledger) == *old(ledger) && r == Err::<(), LifecycleError>(LifecycleError::Precondition),
    {
        if ledger.dummy_account.is_some() {
            ledger.dummy_account = None;
            Ok(())
        } else {
            Err(LifecycleError::Precondition)
        }
    }
}

} // verus!
