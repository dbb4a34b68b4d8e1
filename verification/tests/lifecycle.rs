use synergy_protocol::AccountId;
use synergy_protocol::LedgerEvent;
use synergy_protocol::SynergyError;
use synergy_protocol::SynergyLedger;
use synergy_protocol::TaskStatus;

fn posted_task(ledger: &mut SynergyLedger, creator: AccountId, reward: u64, now: i64) -> usize {
    ledger
        .create_task_order(
            creator,
            "transcode a video".to_string(),
            vec!["video".to_string()],
            reward,
            AccountId { id: 700 },
            now + 3600,
            now,
        )
        .expect("a well-formed task order is accepted")
}

#[test]
fn end_to_end_flow() {
    let creator = AccountId { id: 1 };
    let worker = AccountId { id: 2 };
    let now: i64 = 1_700_000_000;
    let mut ledger = SynergyLedger::initialize();

    let task_id = posted_task(&mut ledger, creator, 100, now);
    assert_eq!(ledger.get_task(task_id).status, TaskStatus::Pending);
    assert_eq!(ledger.get_task(task_id).assignee, None);

    assert_eq!(ledger.claim_task(worker, task_id), Ok(()));
    assert_eq!(ledger.get_task(task_id).status, TaskStatus::Assigned);
    assert_eq!(ledger.get_task(task_id).assignee, Some(worker));

    let escrow_id = ledger
        .complete_task(worker, task_id, [7u8; 32], now + 100)
        .expect("the assignee completes an assigned task");
    assert_eq!(ledger.get_task(task_id).status, TaskStatus::Completed);
    assert_eq!(ledger.get_task(task_id).completed_at, now + 100);
    assert_eq!(ledger.get_escrow(escrow_id).amount, 100);
    assert!(!ledger.get_escrow(escrow_id).released);

    assert_eq!(ledger.release_payment(creator, escrow_id), Ok(()));
    assert!(ledger.get_escrow(escrow_id).released);

    assert_eq!(
        ledger.release_payment(creator, escrow_id),
        Err(SynergyError::PaymentAlreadyReleased)
    );
    assert!(ledger.get_escrow(escrow_id).released);
}

#[test]
fn claim_already_assigned_keeps_assignee() {
    let creator = AccountId { id: 1 };
    let first = AccountId { id: 2 };
    let second = AccountId { id: 3 };
    let mut ledger = SynergyLedger::initialize();
    let task_id = posted_task(&mut ledger, creator, 40, 0);

    assert_eq!(ledger.claim_task(first, task_id), Ok(()));
    assert_eq!(
        ledger.claim_task(second, task_id),
        Err(SynergyError::TaskAlreadyAssigned)
    );
    assert_eq!(ledger.get_task(task_id).assignee, Some(first));
    assert_eq!(ledger.get_task(task_id).status, TaskStatus::Assigned);
}

#[test]
fn complete_by_non_assignee_rejected() {
    let creator = AccountId { id: 1 };
    let assignee = AccountId { id: 2 };
    let stranger = AccountId { id: 3 };
    let mut ledger = SynergyLedger::initialize();
    let task_id = posted_task(&mut ledger, creator, 40, 0);

    assert_eq!(ledger.claim_task(assignee, task_id), Ok(()));
    assert_eq!(
        ledger.complete_task(stranger, task_id, [0u8; 32], 10),
        Err(SynergyError::UnauthorizedCompleter)
    );
    assert_eq!(ledger.get_task(task_id).status, TaskStatus::Assigned);
    assert_eq!(ledger.get_task(task_id).assignee, Some(assignee));
    assert_eq!(ledger.escrow_count(), 0);
}

#[test]
fn complete_requires_assigned_status() {
    let creator = AccountId { id: 1 };
    let worker = AccountId { id: 2 };
    let mut ledger = SynergyLedger::initialize();
    let task_id = posted_task(&mut ledger, creator, 40, 0);

    assert_eq!(
        ledger.complete_task(worker, task_id, [0u8; 32], 10),
        Err(SynergyError::InvalidTaskStatus)
    );
    assert_eq!(ledger.get_task(task_id).status, TaskStatus::Pending);
    assert_eq!(ledger.escrow_count(), 0);
}

#[test]
fn complete_twice_rejected() {
    let creator = AccountId { id: 1 };
    let worker = AccountId { id: 2 };
    let mut ledger = SynergyLedger::initialize();
    let task_id = posted_task(&mut ledger, creator, 40, 0);

    assert_eq!(ledger.claim_task(worker, task_id), Ok(()));
    assert_eq!(ledger.complete_task(worker, task_id, [1u8; 32], 10), Ok(0));
    assert_eq!(
        ledger.complete_task(worker, task_id, [1u8; 32], 20),
        Err(SynergyError::InvalidTaskStatus)
    );
    assert_eq!(ledger.escrow_count(), 1);
    assert_eq!(ledger.get_task(task_id).completed_at, 10);
}

#[test]
fn release_by_non_payer_rejected() {
    let creator = AccountId { id: 1 };
    let worker = AccountId { id: 2 };
    let mut ledger = SynergyLedger::initialize();
    let task_id = posted_task(&mut ledger, creator, 40, 0);

    assert_eq!(ledger.claim_task(worker, task_id), Ok(()));
    let escrow_id = ledger.complete_task(worker, task_id, [1u8; 32], 10).unwrap();
    assert_eq!(
        ledger.release_payment(worker, escrow_id),
        Err(SynergyError::UnauthorizedReleaser)
    );
    assert!(!ledger.get_escrow(escrow_id).released);
    assert_eq!(ledger.release_payment(creator, escrow_id), Ok(()));
}

#[test]
fn escrow_mirrors_completed_task() {
    let creator = AccountId { id: 11 };
    let worker = AccountId { id: 22 };
    let mint = AccountId { id: 700 };
    let mut ledger = SynergyLedger::initialize();
    let task_id = posted_task(&mut ledger, creator, 250, 0);

    assert_eq!(ledger.claim_task(worker, task_id), Ok(()));
    let escrow_id = ledger.complete_task(worker, task_id, [9u8; 32], 77).unwrap();
    let escrow = ledger.get_escrow(escrow_id);
    assert_eq!(escrow.task_id, task_id);
    assert_eq!(escrow.payer, creator);
    assert_eq!(escrow.payee, worker);
    assert_eq!(escrow.amount, 250);
    assert_eq!(escrow.token_mint, mint);
    assert_eq!(escrow.created_at, 77);
    assert!(!escrow.released);
}

#[test]
fn event_log_records_each_transition() {
    let creator = AccountId { id: 1 };
    let worker = AccountId { id: 2 };
    let mut ledger = SynergyLedger::initialize();
    assert_eq!(ledger.event_count(), 0);

    let task_id = posted_task(&mut ledger, creator, 100, 0);
    assert_eq!(ledger.claim_task(worker, task_id), Ok(()));
    let escrow_id = ledger.complete_task(worker, task_id, [5u8; 32], 60).unwrap();
    assert_eq!(ledger.release_payment(creator, escrow_id), Ok(()));
    assert_eq!(ledger.event_count(), 4);

    match ledger.get_event(0) {
        LedgerEvent::TaskCreated(event) => {
            assert_eq!(event.task_id, task_id);
            assert_eq!(event.creator, creator);
        }
        other => panic!("expected a task creation event, got {:?}", other),
    }
    match ledger.get_event(1) {
        LedgerEvent::TaskClaimed(event) => {
            assert_eq!(event.task_id, task_id);
            assert_eq!(event.assignee, worker);
        }
        other => panic!("expected a task claim event, got {:?}", other),
    }
    match ledger.get_event(2) {
        LedgerEvent::TaskCompleted(event) => {
            assert_eq!(event.task_id, task_id);
            assert_eq!(event.completer, worker);
        }
        other => panic!("expected a task completion event, got {:?}", other),
    }
    match ledger.get_event(3) {
        LedgerEvent::PaymentReleased(event) => {
            assert_eq!(event.escrow_id, escrow_id);
            assert_eq!(event.amount, 100);
            assert_eq!(event.payee, worker);
        }
        other => panic!("expected a payment release event, got {:?}", other),
    }
}

#[test]
fn rejected_operations_append_no_event() {
    let creator = AccountId { id: 1 };
    let worker = AccountId { id: 2 };
    let mut ledger = SynergyLedger::initialize();
    let task_id = posted_task(&mut ledger, creator, 100, 0);
    assert_eq!(ledger.claim_task(worker, task_id), Ok(()));
    let events_before = ledger.event_count();

    assert!(ledger.claim_task(creator, task_id).is_err());
    assert!(ledger.complete_task(creator, task_id, [0u8; 32], 5).is_err());
    assert_eq!(ledger.event_count(), events_before);
}
