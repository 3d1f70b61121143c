//! The task lifecycle, end to end, on concrete ledgers.

use clockwork_test::address::Address;
use clockwork_test::contexts::account::{Delete, Initialize, Pause};
use clockwork_test::contexts::close::CloseAccount;
use clockwork_test::contexts::increment::{Increment, TaskWitness};
use clockwork_test::errors::LifecycleError;
use clockwork_test::ledger::{tick, Ledger};
use clockwork_test::{close, delete, increment, initialize, pause, THREAD_FUNDING};

fn addr(tag: u8) -> Address {
    Address::from_bytes(vec![tag; 32]).unwrap()
}

fn fresh_ledger() -> Ledger {
    Ledger::new(addr(1), addr(2))
}

fn payer_ctx() -> Initialize {
    Initialize {
        payer: addr(3),
        payer_balance: 10 * THREAD_FUNDING,
    }
}

fn created_ledger() -> Ledger {
    let mut ledger = fresh_ledger();
    let r = initialize(&mut ledger, &payer_ctx(), b"t1".to_vec());
    assert_eq!(r, Ok(()));
    ledger
}

fn registered_witness(ledger: &Ledger) -> TaskWitness {
    TaskWitness {
        authority: ledger.task.as_ref().unwrap().authority.duplicate(),
        is_signer: true,
    }
}

#[test]
fn create_initializes_account_and_task() {
    let ledger = created_ledger();
    let account = ledger.dummy_account.unwrap();
    assert_eq!(account.counter, 0);
    let task = ledger.task.as_ref().unwrap();
    assert_eq!(task.id, b"t1".to_vec());
    assert_eq!(task.balance, THREAD_FUNDING);
    assert!(!task.paused);
    assert_eq!(task.trigger.schedule, b"*/10 * * * * * *".to_vec());
    assert!(task.trigger.skippable);
    assert_eq!(
        task.payload.thread_authority.as_bytes(),
        task.authority.as_bytes()
    );
    assert_eq!(task.payload.thread.as_bytes(), task.address.as_bytes());
    assert_eq!(task.payload.program.as_bytes(), ledger.program_id.as_bytes());
}

#[test]
fn duplicate_create_is_rejected() {
    let mut ledger = created_ledger();
    let counter_before = ledger.dummy_account.unwrap().counter;
    let r = initialize(&mut ledger, &payer_ctx(), b"t2".to_vec());
    assert_eq!(r, Err(LifecycleError::Precondition));
    assert_eq!(ledger.dummy_account.unwrap().counter, counter_before);
    assert!(ledger.task.is_some());
}

#[test]
fn underfunded_create_is_rejected() {
    let mut ledger = fresh_ledger();
    let ctx = Initialize {
        payer: addr(3),
        payer_balance: THREAD_FUNDING - 1,
    };
    let r = initialize(&mut ledger, &ctx, b"t1".to_vec());
    assert_eq!(r, Err(LifecycleError::ExternalCollaborator));
    assert!(ledger.dummy_account.is_none());
    assert!(ledger.task.is_none());
}

#[test]
fn execute_as_registered_task_increments() {
    let mut ledger = created_ledger();
    let ctx = Increment {
        thread: registered_witness(&ledger),
    };
    assert_eq!(increment(&mut ledger, &ctx), Ok(1));
    assert_eq!(increment(&mut ledger, &ctx), Ok(2));
    assert_eq!(ledger.dummy_account.unwrap().counter, 2);
}

#[test]
fn execute_with_forged_authority_is_rejected() {
    let mut ledger = created_ledger();
    let ctx = Increment {
        thread: TaskWitness {
            authority: addr(9),
            is_signer: true,
        },
    };
    assert_eq!(increment(&mut ledger, &ctx), Err(LifecycleError::Authorization));
    assert_eq!(ledger.dummy_account.unwrap().counter, 0);
}

#[test]
fn execute_without_signature_is_rejected() {
    let mut ledger = created_ledger();
    let mut witness = registered_witness(&ledger);
    witness.is_signer = false;
    let ctx = Increment { thread: witness };
    assert_eq!(increment(&mut ledger, &ctx), Err(LifecycleError::Authorization));
    assert_eq!(ledger.dummy_account.unwrap().counter, 0);
}

#[test]
fn counter_counts_executions() {
    let mut ledger = created_ledger();
    for expected in 1u32..=5 {
        assert_eq!(tick(&mut ledger), Some(Ok(expected)));
    }
    assert_eq!(ledger.dummy_account.unwrap().counter, 5);
}

#[test]
fn pause_halts_triggering() {
    let mut ledger = created_ledger();
    assert_eq!(tick(&mut ledger), Some(Ok(1)));
    assert_eq!(pause(&mut ledger, &Pause {}), Ok(()));
    assert!(ledger.task.as_ref().unwrap().paused);
    for _ in 0..5 {
        assert_eq!(tick(&mut ledger), None);
    }
    assert_eq!(ledger.dummy_account.unwrap().counter, 1);
}

#[test]
fn counter_wraps_at_the_32_bit_boundary() {
    let mut ledger = created_ledger();
    let account = ledger.dummy_account.unwrap();
    ledger.dummy_account = Some(clockwork_test::contexts::account::DummyAccount {
        counter: u32::MAX,
        bump: account.bump,
        thread_bump: account.thread_bump,
    });
    assert_eq!(tick(&mut ledger), Some(Ok(0)));
    assert_eq!(ledger.dummy_account.unwrap().counter, 0);
}

#[test]
fn pause_of_a_foreign_task_is_rejected_by_the_registry() {
    let mut ledger = created_ledger();
    let mut task = ledger.task.take().unwrap();
    task.authority = addr(9);
    ledger.task = Some(task);
    assert_eq!(
        pause(&mut ledger, &Pause {}),
        Err(LifecycleError::ExternalCollaborator)
    );
    assert!(!ledger.task.as_ref().unwrap().paused);
}

#[test]
fn pause_without_account_or_task_is_rejected() {
    let mut empty = fresh_ledger();
    assert_eq!(pause(&mut empty, &Pause {}), Err(LifecycleError::Precondition));
    let mut ledger = created_ledger();
    ledger.task = None;
    assert_eq!(pause(&mut ledger, &Pause {}), Err(LifecycleError::Precondition));
}

#[test]
fn delete_with_mismatched_authority_is_rejected() {
    let mut ledger = created_ledger();
    let mut task = ledger.task.take().unwrap();
    task.authority = addr(9);
    ledger.task = Some(task);
    let r = delete(&mut ledger, &Delete { user: addr(4) });
    assert_eq!(r, Err(LifecycleError::Authorization));
    assert!(ledger.task.is_some());
    assert_eq!(ledger.task.as_ref().unwrap().balance, THREAD_FUNDING);
    assert!(ledger.dummy_account.is_some());
}

#[test]
fn delete_refunds_and_removes_task() {
    let mut ledger = created_ledger();
    let r = delete(&mut ledger, &Delete { user: addr(4) });
    assert_eq!(r, Ok(THREAD_FUNDING));
    assert!(ledger.task.is_none());
    assert!(ledger.dummy_account.is_some());
}

#[test]
fn close_destroys_account_and_blocks_execution() {
    let mut ledger = created_ledger();
    let witness = registered_witness(&ledger);
    assert_eq!(close(&mut ledger, &CloseAccount { destination: addr(5) }), Ok(()));
    assert!(ledger.dummy_account.is_none());
    let ctx = Increment { thread: witness };
    assert_eq!(increment(&mut ledger, &ctx), Err(LifecycleError::Precondition));
    assert_eq!(
        close(&mut ledger, &CloseAccount { destination: addr(5) }),
        Err(LifecycleError::Precondition)
    );
}

#[test]
fn operations_on_an_empty_ledger_fail_their_preconditions() {
    let mut ledger = fresh_ledger();
    let ctx = Increment {
        thread: TaskWitness {
            authority: addr(9),
            is_signer: true,
        },
    };
    assert_eq!(increment(&mut ledger, &ctx), Err(LifecycleError::Precondition));
    assert_eq!(
        delete(&mut ledger, &Delete { user: addr(4) }),
        Err(LifecycleError::Precondition)
    );
    assert_eq!(
        close(&mut ledger, &CloseAccount { destination: addr(5) }),
        Err(LifecycleError::Precondition)
    );
    assert_eq!(tick(&mut ledger), None);
}

#[test]
fn addresses_hold_exactly_32_bytes() {
    assert!(Address::from_bytes(vec![0u8; 31]).is_none());
    assert!(Address::from_bytes(vec![0u8; 33]).is_none());
    let a = Address::from_bytes(vec![7u8; 32]).unwrap();
    assert_eq!(a.as_bytes(), &vec![7u8; 32]);
    assert_eq!(a.duplicate().as_bytes(), a.as_bytes());
}

#[test]
fn full_scenario_create_execute_delete() {
    let mut ledger = fresh_ledger();
    let r = initialize(&mut ledger, &payer_ctx(), b"t1".to_vec());
    assert_eq!(r, Ok(()));
    for expected in 1u32..=3 {
        assert_eq!(tick(&mut ledger), Some(Ok(expected)));
    }
    assert_eq!(ledger.dummy_account.unwrap().counter, 3);
    let r = delete(&mut ledger, &Delete { user: addr(4) });
    assert_eq!(r, Ok(THREAD_FUNDING));
    assert!(ledger.task.is_none());
    for _ in 0..3 {
        assert_eq!(tick(&mut ledger), None);
    }
    assert_eq!(ledger.dummy_account.unwrap().counter, 3);
}
