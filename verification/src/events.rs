use vstd::prelude::*;

use crate::account::AccountId;

verus! {

/// Notification that a service profile was registered.
#[derive(Debug)]
pub struct ServiceRegistered {
    pub service_owner: AccountId,
    pub service_name: String,
}

/// Notification that a task order was posted.
#[derive(Clone, Copy, PartialEq, Eq, Structural, Debug)]
pub struct TaskCreated {
    pub task_id: usize,
    pub creator: AccountId,
}

/// Notification that a pending task was claimed.
#[derive(Clone, Copy, PartialEq, Eq, Structural, Debug)]
pub struct TaskClaimed {
    pub task_id: usize,
    pub assignee: AccountId,
}

/// Notification that an assigned task was completed.
#[derive(Clone, Copy, PartialEq, Eq, Structural, Debug)]
pub struct TaskCompleted {
    pub task_id: usize,
    pub completer: AccountId,
}

/// Notification that an escrow's payment was released.
#[derive(Clone, Copy, PartialEq, Eq, Structural, Debug)]
pub struct PaymentReleased {
    pub escrow_id: usize,
    pub amount: u64,
    pub payee: AccountId,
}

/// One entry of the append-only event log. Each successful operation
/// appends exactly one entry, in commit order; no operation reads the log —
/// it exists for external observers such as a settlement collaborator.
#[derive(Debug)]
pub enum LedgerEvent {
    ServiceRegistered(ServiceRegistered),
    TaskCreated(TaskCreated),
    TaskClaimed(TaskClaimed),
    TaskCompleted(TaskCompleted),
    PaymentReleased(PaymentReleased),
}

} // verus!
