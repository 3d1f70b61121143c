//! The automated privileged mutation and its authority gate.

use vstd::prelude::*;

use crate::address::Address;
use crate::errors::LifecycleError;
use crate::ledger::{derived_authority, increment_step, Ledger};
use crate::pda::derive_authority;

verus! {

/// What the caller presents as the registered task: the authority field of
/// the task record it claims to be, and whether the runtime verified its
/// signature on this call.
#[derive(Debug)]
pub struct TaskWitness {
    pub authority: Address,
    pub is_signer: bool,
}

/// Call context of the execute entry point.
#[derive(Debug)]
pub struct Increment {
    /// The task presenting itself as the caller.
    pub thread: TaskWitness,
}

impl Increment {
    /// The automated mutation: `counter` moves by one, wrapping at the
    /// 32-bit boundary, and the new value is returned for reporting.  It
    /// succeeds exactly when the owning account exists,
    /// the caller is a signer, and the presented authority equals the one
    /// re-derived from the account's persisted bump; any other caller is
    /// rejected and the counter is unchanged.
    pub fn increment(&self, ledger: &mut Ledger) -> (r: Result<u32, LifecycleError>)
        requires
            old(ledger).wf(),
        ensures
            *final(ledger) == increment_step(
                *old(ledger),
                self.thread.authority@,
                self.thread.is_signer,
            ).0,
            r == increment_step(*old(ledger), self.thread.authority@, self.thread.is_signer).1,
            final(ledger).wf(),
            r is Ok <==> (old(ledger).dummy_account is Some && self.thread.is_signer
                && derived_authority(*old(ledger)) == Some(self.thread.authority@)),
            r is Err ==> *final(ledger) == *old(ledger),
            old(ledger).dummy_account is None ==> r == Err::<u32, LifecycleError>(
                LifecycleError::Precondition,
            ),
    {
        let d = match ledger.dummy_account {
            Some(d) => d,
            None => {
                return Err(LifecycleError::Precondition);
            },
        };
        let derived = derive_authority(d.thread_bump, &ledger.program_id);
        let authorized = self.thread.is_signer && (match &derived {
            Some(a) => a.eq_bytes(&self.thread.authority),
            None => false,
        });
        if authorized {
            let c: u32 = if d.counter == 0xffff_ffffu32 {
                0
            } else {
                d.counter + 1
            };
            ledger.dummy_account = Some(
                crate::contexts::account::DummyAccount {
                    counter: c,
                    bump: d.bump,
                    thread_bump: d.thread_bump,
                },
            );
            Ok(c)
        } else {
            Err(LifecycleError::Authorization)
        }
    }
}

} // verus!
