//! The plain-value model of the ledger state this core touches.
//!
//! One owning account and at most one scheduled task exist per deployment.
//! Each lifecycle operation is specified as a pure transition function over
//! this state; the executable entry points are proved to implement exactly
//! those transitions.

use vstd::prelude::*;

use crate::address::Address;
use crate::contexts::account::DummyAccount;
use crate::contexts::increment::{Increment, TaskWitness};
use crate::errors::LifecycleError;
use crate::pda::{auth_seeds, pda_at};

verus! {

/// The trigger armed on the scheduled task: a cron expression, and whether
/// a missed firing window is dropped rather than queued.
#[derive(Debug)]
pub struct Trigger {
    pub schedule: Vec<u8>,
    pub skippable: bool,
}

/// The declarative call descriptor the task replays on every trigger: the
/// target program and the accounts the privileged mutation addresses.  It
/// is plain data handed to the registry at creation, not a callback.
#[derive(Debug)]
pub struct CallDescriptor {
    pub program: Address,
    pub dummy_account: Address,
    pub thread: Address,
    pub thread_authority: Address,
}

/// The scheduling registry's record of the one task this core registers:
/// funding, the payload to replay, the trigger, and the authority that owns
/// it.
#[derive(Debug)]
pub struct ScheduledTask {
    pub address: Address,
    pub id: Vec<u8>,
    pub authority: Address,
    pub balance: u64,
    pub payload: CallDescriptor,
    pub trigger: Trigger,
    pub paused: bool,
}

/// The slice of ledger state the lifecycle controller touches: the two
/// program addresses fixed at deployment, the owning account, and the
/// registry's task record.
#[derive(Debug)]
pub struct Ledger {
    /// This core's own program address.
    pub program_id: Address,
    /// The scheduling registry's program address.
    pub registry_program: Address,
    /// The owning account, once created.
    pub dummy_account: Option<DummyAccount>,
    /// The registered task, once created.
    pub task: Option<ScheduledTask>,
}

impl Ledger {
    /// Both program addresses are well-formed.
    pub open spec fn wf(&self) -> bool {
        self.program_id.wf() && self.registry_program.wf()
    }

    /// A fresh deployment: no owning account, no task.
    pub fn new(program_id: Address, registry_program: Address) -> (r: Ledger)
        requires
            program_id.wf(),
            registry_program.wf(),
        ensures
            r.wf(),
            r.program_id == program_id,
            r.registry_program == registry_program,
            r.dummy_account is None,
            r.task is None,
    {
        Ledger { program_id, registry_program, dummy_account: None, task: None }
    }
}

/// The counter's explicit overflow policy: it wraps at the 32-bit boundary.
pub open spec fn wrap_inc(c: u32) -> u32 {
    if c == 0xffff_ffffu32 {
        0u32
    } else {
        (c + 1) as u32
    }
}

/// The manager authority an operation recomputes from the owning account's
/// persisted bump, when the account exists and the derivation is viable.
pub open spec fn derived_authority(l: Ledger) -> Option<Seq<u8>> {
    match l.dummy_account {
        Some(d) => pda_at(auth_seeds(d.thread_bump), l.program_id@),
        None => None,
    }
}

/// The execute transition.  The authority gate: the presented task must be
/// a signer and its authority field must equal the recomputed derived
/// authority; only then does the counter move.
pub open spec fn increment_step(l: Ledger, presented_authority: Seq<u8>, is_signer: bool) -> (
    Ledger,
    Result<u32, LifecycleError>,
) {
    match l.dummy_account {
        None => (l, Err(LifecycleError::Precondition)),
        Some(d) => {
            if is_signer && derived_authority(l) == Some(presented_authority) {
                let c = wrap_inc(d.counter);
                (
                    Ledger { dummy_account: Some(DummyAccount { counter: c, ..d }), ..l },
                    Ok(c),
                )
            } else {
                (l, Err(LifecycleError::Authorization))
            }
        },
    }
}

/// The pause transition.  The core signs toward the registry as the derived
/// authority; the registry suspends the trigger only when that signer owns
/// the task, and its rejection is propagated unchanged.
pub open spec fn pause_step(l: Ledger) -> (Ledger, Result<(), LifecycleError>) {
    if l.dummy_account is None || l.task is None {
        (l, Err(LifecycleError::Precondition))
    } else {
        let t = l.task.unwrap();
        if derived_authority(l) == Some(t.authority@) {
            (Ledger { task: Some(ScheduledTask { paused: true, ..t }), ..l }, Ok(()))
        } else {
            (l, Err(LifecycleError::ExternalCollaborator))
        }
    }
}

/// The delete transition.  The task's stored authority must equal the
/// derived authority — checked by this core before any registry call; on
/// success the task is removed and its balance refunded.
pub open spec fn delete_step(l: Ledger) -> (Ledger, Result<u64, LifecycleError>) {
    if l.dummy_account is None || l.task is None {
        (l, Err(LifecycleError::Precondition))
    } else {
        let t = l.task.unwrap();
        if derived_authority(l) == Some(t.authority@) {
            (Ledger { task: None, ..l }, Ok(t.balance))
        } else {
            (l, Err(LifecycleError::Authorization))
        }
    }
}

/// The close transition: the owning account is destroyed.  No ordering is
/// enforced against delete; a still-registered task simply finds no account
/// on its next firing.
pub open spec fn close_step(l: Ledger) -> (Ledger, Result<(), LifecycleError>) {
    if l.dummy_account is None {
        (l, Err(LifecycleError::Precondition))
    } else {
        (Ledger { dummy_account: None, ..l }, Ok(()))
    }
}

/// One firing opportunity of the registry: a registered, unpaused task
/// replays the privileged mutation, signing as itself; a paused or absent
/// task never fires, and the missed window is dropped.
pub open spec fn tick_step(l: Ledger) -> (Ledger, Option<Result<u32, LifecycleError>>) {
    match l.task {
        None => (l, None),
        Some(t) => {
            if t.paused {
                (l, None)
            } else {
                let p = increment_step(l, t.authority@, true);
                (p.0, Some(p.1))
            }
        },
    }
}

/// Simulates one firing opportunity of the scheduling registry.  `None`
/// means no trigger fired (the task is absent or paused); `Some(r)` carries
/// the outcome of the replayed execute call.
pub fn tick(ledger: &mut Ledger) -> (r: Option<Result<u32, LifecycleError>>)
    requires
        old(ledger).wf(),
    ensures
        *final(ledger) == tick_step(*old(ledger)).0,
        r == tick_step(*old(ledger)).1,
        final(ledger).wf(),
{
    let witness: Option<TaskWitness> = match &ledger.task {
        Some(t) => {
            if t.paused {
                None
            } else {
                Some(TaskWitness { authority: t.authority.duplicate(), is_signer: true })
            }
        },
        None => None,
    };
    match witness {
        None => None,
        Some(w) => {
            let ctx = Increment { thread: w };
            Some(ctx.increment(ledger))
        },
    }
}

} // verus!
