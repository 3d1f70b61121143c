//! The lifecycle's global guarantees, proved over the transition functions.

use vstd::prelude::*;

use crate::contexts::account::initialize_post;
use crate::errors::LifecycleError;
use crate::ledger::{
    close_step, delete_step, derived_authority, increment_step, pause_step, tick_step, Ledger,
};

verus! {

/// The ledger after `n` execute calls, each presenting the given authority
/// as a signer.
pub open spec fn run_execs(l: Ledger, auth: Seq<u8>, n: nat) -> Ledger
    decreases n,
{
    if n == 0 {
        l
    } else {
        increment_step(run_execs(l, auth, (n - 1) as nat), auth, true).0
    }
}

/// The ledger after `n` firing opportunities of the registry.
pub open spec fn ticks(l: Ledger, n: nat) -> Ledger
    decreases n,
{
    if n == 0 {
        l
    } else {
        tick_step(ticks(l, (n - 1) as nat)).0
    }
}

/// Execute succeeds exactly when the owning account exists, the caller is
/// a signer, and its presented authority equals the one derived from the
/// account's persisted bump; every other caller is rejected with an
/// authorization error and the ledger — the counter included — is
/// unchanged, and without the account the failure is the existence
/// precondition, whatever authority is presented.
pub proof fn lemma_execute_gate(l: Ledger, auth: Seq<u8>, is_signer: bool)
    ensures
        l.dummy_account is Some ==> (increment_step(l, auth, is_signer).1 is Ok <==> (is_signer
            && derived_authority(l) == Some(auth))),
        increment_step(l, auth, is_signer).1 is Err ==> increment_step(l, auth, is_signer).0 == l,
        l.dummy_account is Some && !(is_signer && derived_authority(l) == Some(auth))
            ==> increment_step(l, auth, is_signer).1 == Err::<u32, LifecycleError>(
            LifecycleError::Authorization,
        ),
        l.dummy_account is None ==> increment_step(l, auth, is_signer).1 == Err::<
            u32,
            LifecycleError,
        >(LifecycleError::Precondition),
{
}

/// Counting is exact: starting from an owning account whose derived
/// authority the caller presents as a signer, `n` execute calls in a row
/// all succeed and move the counter from `c` to `c + n`, as long as `c + n`
/// stays below the 32-bit wraparound; everything else in the ledger,
/// the persisted bumps included, is untouched.
pub proof fn lemma_counter_counts(l: Ledger, auth: Seq<u8>, n: nat)
    requires
        l.dummy_account is Some,
        derived_authority(l) == Some(auth),
        l.dummy_account.unwrap().counter + n <= 0xffff_ffffu32,
    ensures
        run_execs(l, auth, n).dummy_account is Some,
        run_execs(l, auth, n).dummy_account.unwrap().counter == l.dummy_account.unwrap().counter
            + n,
        run_execs(l, auth, n).dummy_account.unwrap().bump == l.dummy_account.unwrap().bump,
        run_execs(l, auth, n).dummy_account.unwrap().thread_bump
            == l.dummy_account.unwrap().thread_bump,
        run_execs(l, auth, n).program_id == l.program_id,
        run_execs(l, auth, n).registry_program == l.registry_program,
        run_execs(l, auth, n).task == l.task,
        derived_authority(run_execs(l, auth, n)) == Some(auth),
        n > 0 ==> increment_step(run_execs(l, auth, (n - 1) as nat), auth, true).1 is Ok,
    decreases n,
{
    if n > 0 {
        lemma_counter_counts(l, auth, (n - 1) as nat);
    }
}

/// Pausing is one-way within this surface: once pause has succeeded, any
/// number of firing opportunities of the registry leave the ledger — the
/// counter in particular — exactly as pause left it.
pub proof fn lemma_pause_halts_triggers(l: Ledger, n: nat)
    requires
        pause_step(l).1 is Ok,
    ensures
        ticks(pause_step(l).0, n) == pause_step(l).0,
    decreases n,
{
    if n > 0 {
        lemma_pause_halts_triggers(l, (n - 1) as nat);
    }
}

/// Delete is gated on the stored authority: when the task's authority
/// field does not match the derived authority, delete fails with an
/// authorization error and both the task and the owning account are left
/// unchanged.
pub proof fn lemma_delete_gate(l: Ledger)
    ensures
        l.dummy_account is Some && l.task is Some && derived_authority(l) != Some(
            l.task.unwrap().authority@,
        ) ==> (delete_step(l).0 == l && delete_step(l).1 == Err::<u64, LifecycleError>(
            LifecycleError::Authorization,
        )),
{
}

/// Close is terminal for the account: once it has succeeded the owning
/// account is gone, and every later execute fails its existence
/// precondition and changes nothing — whatever authority and signature the
/// caller presents.
pub proof fn lemma_close_terminal(l: Ledger, auth: Seq<u8>, is_signer: bool)
    requires
        close_step(l).1 is Ok,
    ensures
        close_step(l).0.dummy_account is None,
        increment_step(close_step(l).0, auth, is_signer).0 == close_step(l).0,
        increment_step(close_step(l).0, auth, is_signer).1 == Err::<u32, LifecycleError>(
            LifecycleError::Precondition,
        ),
{
}

/// Create arms the automation: right after a successful create, the
/// registered task itself passes the execute gate, so the first firing
/// opportunity of the registry executes the mutation and moves the counter
/// from zero to one.
pub proof fn lemma_created_task_fires(
    pre: Ledger,
    post: Ledger,
    r: Result<(), LifecycleError>,
    id: Seq<u8>,
    payer_balance: u64,
)
    requires
        initialize_post(pre, post, r, id, payer_balance),
        r is Ok,
    ensures
        tick_step(post).1 == Some(Ok::<u32, LifecycleError>(1u32)),
        tick_step(post).0.dummy_account.unwrap().counter == 1,
{
}

/// A deleted task never fires: with no registered task, a firing
/// opportunity of the registry does nothing.
pub proof fn lemma_deleted_task_never_fires(l: Ledger, n: nat)
    requires
        l.task is None,
    ensures
        ticks(l, n) == l,
    decreases n,
{
    if n > 0 {
        lemma_deleted_task_never_fires(l, (n - 1) as nat);
    }
}

} // verus!
