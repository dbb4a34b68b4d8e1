use vstd::prelude::*;

verus! {

/// The reasons an operation can be rejected. Every rejection leaves the
/// ledger exactly as it was: an operation either commits its whole
/// transition or does nothing.
#[derive(Clone, Copy, PartialEq, Eq, Structural, Debug)]
pub enum SynergyError {
    /// A creation-time input was malformed or out of bounds: an empty or
    /// over-long string, too many capability tags, a non-positive reward, a
    /// deadline not in the future, or pricing bounds out of order.
    ValidationError,
    /// A claim was attempted on a task that is no longer pending.
    TaskAlreadyAssigned,
    /// A completion was attempted on a task that is neither assigned nor in
    /// progress.
    InvalidTaskStatus,
    /// The completer is not the assignee recorded on the task.
    UnauthorizedCompleter,
    /// A release was attempted on an escrow whose payment has already been
    /// released.
    PaymentAlreadyReleased,
    /// The releasing caller is not the payer recorded on the escrow. This
    /// library restricts payment release to the recorded payer: the party
    /// whose funds the escrow holds is the one who signs them away.
    UnauthorizedReleaser,
}

} // verus!
