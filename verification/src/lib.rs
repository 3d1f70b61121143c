//! A verified model of a counter account driven by a delegated, scheduled
//! task.
//!
//! The library models a minimal on-chain automation core: an owning account
//! (`DummyAccount`) holding a 32-bit counter, a key-less manager authority
//! derived from a fixed label, and one scheduled task registered with an
//! external scheduling registry that periodically invokes the privileged
//! increment.  The lifecycle controller — create, execute, pause, delete,
//! close — is verified here over a plain-value model of the ledger state;
//! address derivation is performed by the ledger runtime's program-derived
//! address scheme and is the one outside computation the logic calls.

use vstd::prelude::*;

pub mod address;
pub mod pda;
pub mod errors;
pub mod contexts;
pub mod ledger;
pub mod laws;

use crate::contexts::account::{Delete, Initialize, Pause};
use crate::contexts::close::CloseAccount;
use crate::contexts::increment::Increment;
use crate::errors::LifecycleError;
use crate::ledger::{close_step, delete_step, increment_step, pause_step, Ledger};

verus! {

/// Funding drawn from the payer for the scheduled task: one native-token
/// unit equivalent.
pub const THREAD_FUNDING: u64 = 1_000_000_000;

/// Seed label fixing the owning account's derived address ("Dummyy").
pub open spec fn seed_counter() -> Seq<u8> {
    seq![68u8, 117u8, 109u8, 109u8, 121u8, 121u8]
}

/// The bytes of [`seed_counter`].
pub fn seed_counter_bytes() -> (r: Vec<u8>)
    ensures
        r@ == seed_counter(),
{
    let mut v: Vec<u8> = Vec::new();
    v.push(68u8);
    v.push(117u8);
    v.push(109u8);
    v.push(109u8);
    v.push(121u8);
    v.push(121u8);
    proof {
        assert(v@ =~= seed_counter());
    }
    v
}

/// Seed label fixing the manager authority's derived address ("authority").
/// It must match what any outside client uses to re-derive the same address.
pub open spec fn thread_authority_seed() -> Seq<u8> {
    seq![97u8, 117u8, 116u8, 104u8, 111u8, 114u8, 105u8, 116u8, 121u8]
}

/// The bytes of [`thread_authority_seed`].
pub fn thread_authority_seed_bytes() -> (r: Vec<u8>)
    ensures
        r@ == thread_authority_seed(),
{
    let mut v: Vec<u8> = Vec::new();
    v.push(97u8);
    v.push(117u8);
    v.push(116u8);
    v.push(104u8);
    v.push(111u8);
    v.push(114u8);
    v.push(105u8);
    v.push(116u8);
    v.push(121u8);
    proof {
        assert(v@ =~= thread_authority_seed());
    }
    v
}

/// The cron expression armed on the task: fire every ten seconds
/// ("*/10 * * * * * *").
pub open spec fn cron_schedule() -> Seq<u8> {
    seq![
        42u8, 47u8, 49u8, 48u8, 32u8, 42u8, 32u8, 42u8, 32u8, 42u8, 32u8, 42u8, 32u8, 42u8, 32u8,
        42u8,
    ]
}

/// The bytes of [`cron_schedule`].
pub fn cron_schedule_bytes() -> (r: Vec<u8>)
    ensures
        r@ == cron_schedule(),
{
    let mut v: Vec<u8> = Vec::new();
    v.push(42u8);
    v.push(47u8);
    v.push(49u8);
    v.push(48u8);
    v.push(32u8);
    v.push(42u8);
    v.push(32u8);
    v.push(42u8);
    v.push(32u8);
    v.push(42u8);
    v.push(32u8);
    v.push(42u8);
    v.push(32u8);
    v.push(42u8);
    v.push(32u8);
    v.push(42u8);
    proof {
        assert(v@ =~= cron_schedule());
    }
    v
}

/// Entry point: create the owning account and register the scheduled task.
pub fn initialize(ledger: &mut Ledger, ctx: &Initialize, thread_id: Vec<u8>) -> (r: Result<
    (),
    LifecycleError,
>)
    requires
        old(ledger).wf(),
    ensures
        crate::contexts::account::initialize_post(
            *old(ledger),
            *final(ledger),
            r,
            thread_id@,
            ctx.payer_balance,
        ),
        final(ledger).wf(),
{
    ctx.initialize(ledger, thread_id)
}

/// Entry point: the automated privileged mutation, gated on the caller's
/// signature and authority.
pub fn increment(ledger: &mut Ledger, ctx: &Increment) -> (r: Result<u32, LifecycleError>)
    requires
        old(ledger).wf(),
    ensures
        *final(ledger) == increment_step(
            *old(ledger),
            ctx.thread.authority@,
            ctx.thread.is_signer,
        ).0,
        r == increment_step(*old(ledger), ctx.thread.authority@, ctx.thread.is_signer).1,
        final(ledger).wf(),
{
    ctx.increment(ledger)
}

/// Entry point: suspend the scheduled task's trigger.
pub fn pause(ledger: &mut Ledger, ctx: &Pause) -> (r: Result<(), LifecycleError>)
    requires
        old(ledger).wf(),
    ensures
        *final(ledger) == pause_step(*old(ledger)).0,
        r == pause_step(*old(ledger)).1,
        final(ledger).wf(),
{
    ctx.pause(ledger)
}

/// Entry point: delete the scheduled task and refund its balance.
pub fn delete(ledger: &mut Ledger, ctx: &Delete) -> (r: Result<u64, LifecycleError>)
    requires
        old(ledger).wf(),
    ensures
        *final(ledger) == delete_step(*old(ledger)).0,
        r == delete_step(*old(ledger)).1,
        final(ledger).wf(),
{
    ctx.delete(ledger)
}

/// Entry point: destroy the owning account and reclaim its storage.
pub fn close(ledger: &mut Ledger, ctx: &CloseAccount) -> (r: Result<(), LifecycleError>)
    requires
        old(ledger).wf(),
    ensures
        *final(ledger) == close_step(*old(ledger)).0,
        r == close_step(*old(ledger)).1,
        final(ledger).wf(),
{
    ctx.close(ledger)
}

} // verus!
