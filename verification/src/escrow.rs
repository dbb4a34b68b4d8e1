use vstd::prelude::*;

use crate::account::AccountId;

verus! {

/// The release state of one completed task's reward, pending external
/// settlement. Created only as a side effect of completing the task it
/// refers to; mutated only by releasing the payment.
#[derive(Clone, Copy, PartialEq, Eq, Structural, Debug)]
pub struct TaskEscrow {
    /// Position of the one task this escrow pays for; set once at creation.
    pub task_id: usize,
    /// The task's creator at completion time.
    pub payer: AccountId,
    /// The task's assignee at completion time.
    pub payee: AccountId,
    /// The task's reward amount at completion time.
    pub amount: u64,
    /// The fund denomination the reward is paid in.
    pub token_mint: AccountId,
    /// Starts false; flips to true exactly once. Actual fund movement is a
    /// settlement collaborator's concern, acting on the release event.
    pub released: bool,
    pub created_at: i64,
}

/// A release commits only while the payment is still held, and only for the
/// recorded payer: the party whose funds the escrow holds is the one who
/// signs them away.
pub open spec fn release_allowed(escrow: TaskEscrow, caller: AccountId) -> bool {
    &&& !escrow.released
    &&& caller == escrow.payer
}

/// The escrow as a successful release leaves it: released, every other
/// field untouched.
pub open spec fn after_release(escrow: TaskEscrow) -> TaskEscrow {
    TaskEscrow { released: true, ..escrow }
}

/// Law: releasing a payment succeeds at most once. The first release flips
/// the flag to true, and on a released escrow every further release attempt
/// is refused, whoever makes it — the flag flips false to true exactly once
/// and never back.
pub proof fn lemma_release_exactly_once(escrow: TaskEscrow, first: AccountId, second: AccountId)
    requires
        release_allowed(escrow, first),
    ensures
        after_release(escrow).released,
        !release_allowed(after_release(escrow), second),
        after_release(after_release(escrow)) == after_release(escrow),
{
}

} // verus!
