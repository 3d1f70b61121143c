//! The owning account, its creation, and the task's pause and delete paths.

use vstd::prelude::*;

use crate::address::{copy_bytes, Address};
use crate::errors::LifecycleError;
use crate::ledger::{
    delete_step, derived_authority, pause_step, CallDescriptor, Ledger, ScheduledTask, Trigger,
};
use crate::pda::{derive_authority, found_pda_of, try_find_pda};
use crate::{seed_counter, thread_authority_seed, THREAD_FUNDING};

verus! {

/// The persistent owning account: the counter mutated by automated
/// execution, and the two bump bytes that fix its own and its manager
/// authority's derived addresses for the account's lifetime.
#[derive(Debug, Clone, Copy, PartialEq, Eq, Structural)]
pub struct DummyAccount {
    pub counter: u32,
    pub bump: u8,
    pub thread_bump: u8,
}

/// Call context of the create entry point.
#[derive(Debug)]
pub struct Initialize {
    /// The wallet funding account rent and task funding.  Moving the funds
    /// is the runtime's concern; the model checks only the balance.
    pub payer: Address,
    /// What that wallet holds; the registry rejects underfunded requests.
    pub payer_balance: u64,
}

/// Call context of the pause entry point.  The caller supplies nothing: the
/// core itself signs toward the registry as the derived authority.
#[derive(Debug)]
pub struct Pause {}

/// Call context of the delete entry point.
#[derive(Debug)]
pub struct Delete {
    /// Receives the task's remaining funding.
    pub user: Address,
}

/// The owning-account derivation create finds: label [`seed_counter`] under
/// this core's program.
pub open spec fn counter_pda(l: Ledger) -> Option<(Seq<u8>, u8)> {
    found_pda_of(seq![seed_counter()], l.program_id@)
}

/// The manager-authority derivation create finds: label
/// [`thread_authority_seed`] under this core's program.
pub open spec fn authority_pda(l: Ledger) -> Option<(Seq<u8>, u8)> {
    found_pda_of(seq![thread_authority_seed()], l.program_id@)
}

/// The task-address derivation: the registry derives the task's address
/// from its owning authority and the caller-chosen identifier, so the
/// address is fully determined before the task exists.
pub open spec fn task_pda(l: Ledger, id: Seq<u8>) -> Option<(Seq<u8>, u8)> {
    match authority_pda(l) {
        Some(p) => found_pda_of(seq![p.0, id], l.registry_program@),
        None => None,
    }
}

/// When create succeeds: no account and no task yet, all three derivations
/// viable, and the payer covers the task funding.
pub open spec fn create_ok(l: Ledger, id: Seq<u8>, payer_balance: u64) -> bool {
    &&& l.dummy_account is None
    &&& l.task is None
    &&& counter_pda(l) is Some
    &&& authority_pda(l) is Some
    &&& task_pda(l, id) is Some
    &&& payer_balance >= THREAD_FUNDING
}

/// The whole contract of create, shared by the entry point: all-or-nothing,
/// with the new account and task pinned field by field on success.
pub open spec fn initialize_post(
    pre: Ledger,
    post: Ledger,
    r: Result<(), LifecycleError>,
    id: Seq<u8>,
    payer_balance: u64,
) -> bool {
    &&& (r is Ok <==> create_ok(pre, id, payer_balance))
    &&& (r == Err::<(), LifecycleError>(LifecycleError::Precondition) <==> pre.dummy_account
        is Some)
    &&& (r == Err::<(), LifecycleError>(LifecycleError::ExternalCollaborator) <==> (
    pre.dummy_account is None && !create_ok(pre, id, payer_balance)))
    &&& (r is Err ==> post == pre)
    &&& (r is Ok ==> {
        let cp = counter_pda(pre).unwrap();
        let ap = authority_pda(pre).unwrap();
        let tp = task_pda(pre, id).unwrap();
        &&& post.program_id == pre.program_id
        &&& post.registry_program == pre.registry_program
        &&& post.dummy_account matches Some(d) && d.counter == 0 && d.bump == cp.1
            && d.thread_bump == ap.1
        &&& post.task matches Some(t) && {
            &&& t.address@ == tp.0
            &&& t.id@ == id
            &&& t.authority@ == ap.0
            &&& t.balance == THREAD_FUNDING
            &&& t.paused == false
            &&& t.trigger.schedule@ == crate::cron_schedule()
            &&& t.trigger.skippable == true
            &&& t.payload.program@ == pre.program_id@
            &&& t.payload.dummy_account@ == cp.0
            &&& t.payload.thread@ == tp.0
            &&& t.payload.thread_authority@ == ap.0
        }
        &&& derived_authority(post) == Some(ap.0)
    })
}

impl Initialize {
    /// Creates the owning account and registers the scheduled task, as one
    /// atomic unit: the counter starts at zero, both bumps are fixed for
    /// the account's lifetime, the task is bound to the derived authority
    /// and armed with the execute payload and the cron trigger.  A second
    /// create against an existing account fails its precondition; a
    /// registry rejection (duplicate task, underfunded payer, no viable
    /// derivation) is propagated unchanged; any failure leaves the ledger
    /// untouched.
    pub fn initialize(&self, ledger: &mut Ledger, thread_id: Vec<u8>) -> (r: Result<
        (),
        LifecycleError,
    >)
        requires
            old(ledger).wf(),
        ensures
            initialize_post(*old(ledger), *final(ledger), r, thread_id@, self.payer_balance),
            final(ledger).wf(),
    {
        if ledger.dummy_account.is_some() {
            return Err(LifecycleError::Precondition);
        }
        let mut counter_seeds: Vec<Vec<u8>> = Vec::new();
        counter_seeds.push(crate::seed_counter_bytes());
        proof {
            assert(counter_seeds.deep_view() =~~= seq![seed_counter()]);
        }
        let (dummy_addr, bump) = match try_find_pda(&counter_seeds, &ledger.program_id) {
            Some(p) => p,
            None => {
                return Err(LifecycleError::ExternalCollaborator);
            },
        };
        let mut authority_seeds: Vec<Vec<u8>> = Vec::new();
        authority_seeds.push(crate::thread_authority_seed_bytes());
        proof {
            assert(authority_seeds.deep_view() =~~= seq![thread_authority_seed()]);
        }
        let (auth_addr, thread_bump) = match try_find_pda(&authority_seeds, &ledger.program_id) {
            Some(p) => p,
            None => {
                return Err(LifecycleError::ExternalCollaborator);
            },
        };
        let mut task_seeds: Vec<Vec<u8>> = Vec::new();
        task_seeds.push(auth_addr.to_vec());
        task_seeds.push(copy_bytes(&thread_id));
        proof {
            assert(task_seeds.deep_view() =~~= seq![auth_addr@, thread_id@]);
        }
        let (task_addr, _task_bump) = match try_find_pda(&task_seeds, &ledger.registry_program) {
            Some(p) => p,
            None => {
                return Err(LifecycleError::ExternalCollaborator);
            },
        };
        if ledger.task.is_some() {
            return Err(LifecycleError::ExternalCollaborator);
        }
        if self.payer_balance < THREAD_FUNDING {
            return Err(LifecycleError::ExternalCollaborator);
        }
        let payload = CallDescriptor {
            program: ledger.program_id.duplicate(),
            dummy_account: dummy_addr,
            thread: task_addr.duplicate(),
            thread_authority: auth_addr.duplicate(),
        };
        let trigger = Trigger { schedule: crate::cron_schedule_bytes(), skippable: true };
        ledger.dummy_account = Some(DummyAccount { counter: 0, bump, thread_bump });
        ledger.task = Some(
            ScheduledTask {
                address: task_addr,
                id: thread_id,
                authority: auth_addr,
                balance: THREAD_FUNDING,
                payload,
                trigger,
                paused: false,
            },
        );
        proof {
            assert(seq![thread_authority_seed()].push(seq![thread_bump]) =~~= crate::pda::auth_seeds(
                thread_bump,
            ));
        }
        Ok(())
    }
}

impl Pause {
    /// Requests the registry suspend the task's trigger, signing as the
    /// derived authority re-derived from the persisted bump.  The task
    /// record persists but no longer fires; the registry's rejection of a
    /// signer that does not own the task is propagated unchanged.
    pub fn pause(&self, ledger: &mut Ledger) -> (r: Result<(), LifecycleError>)
        requires
            old(ledger).wf(),
        ensures
            *final(ledger) == pause_step(*old(ledger)).0,
            r == pause_step(*old(ledger)).1,
            final(ledger).wf(),
            r is Err ==> *final(ledger) == *old(ledger),
            r is Ok ==> final(ledger).task is Some && final(ledger).task.unwrap().paused,
    {
        let d = match ledger.dummy_account {
            Some(d) => d,
            None => {
                return Err(LifecycleError::Precondition);
            },
        };
        let t = match ledger.task.take() {
            Some(t) => t,
            None => {
                return Err(LifecycleError::Precondition);
            },
        };
        let derived = derive_authority(d.thread_bump, &ledger.program_id);
        let owned = match &derived {
            Some(a) => a.eq_bytes(&t.authority),
            None => false,
        };
        if owned {
            let mut updated = t;
            updated.paused = true;
            ledger.task = Some(updated);
            Ok(())
        } else {
            ledger.task = Some(t);
            Err(LifecycleError::ExternalCollaborator)
        }
    }
}

impl Delete {
    /// Requests the registry delete the task and refund its remaining
    /// funding to the destination — but only after this core has checked
    /// that the task's stored authority equals the derived authority.
    /// Terminal for the task: it never fires again, and only a new create
    /// can reinstate automation.
    pub fn delete(&self, ledger: &mut Ledger) -> (r: Result<u64, LifecycleError>)
        requires
            old(ledger).wf(),
        ensures
            *final(ledger) == delete_step(*old(ledger)).0,
            r == delete_step(*old(ledger)).1,
            final(ledger).wf(),
            r is Err ==> *final(ledger) == *old(ledger),
            r is Ok ==> final(ledger).task is None,
            r is Ok <==> (old(ledger).dummy_account is Some && old(ledger).task is Some
                && derived_authority(*old(ledger)) == Some(
                old(ledger).task.unwrap().authority@,
            )),
    {
        let d = match ledger.dummy_account {
            Some(d) => d,
            None => {
                return Err(LifecycleError::Precondition);
            },
        };
        let authorized = match &ledger.task {
            Some(t) => {
                let derived = derive_authority(d.thread_bump, &ledger.program_id);
                match &derived {
                    Some(a) => a.eq_bytes(&t.authority),
                    None => false,
                }
            },
            None => {
                return Err(LifecycleError::Precondition);
            },
        };
        if authorized {
            match ledger.task.take() {
                Some(t) => Ok(t.balance),
                None => {
                    proof {
                        assert(false);
                    }
                    Err(LifecycleError::Authorization)
                },
            }
        } else {
            Err(LifecycleError::Authorization)
        }
    }
}

} // verus!
