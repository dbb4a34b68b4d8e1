use vstd::prelude::*;

use crate::account::AccountId;
use crate::bounds::MAX_TASK_DESCRIPTION_LEN;
use crate::bounds::capabilities_wf;
use crate::bounds::check_capabilities;

verus! {

/// Where a task stands in its lifecycle. The only legal path is
/// Pending → Assigned → (InProgress →) Completed; Failed may in principle be
/// entered from any non-terminal state, but no operation in this core drives
/// that edge — the state exists in the model only.
#[derive(Clone, Copy, PartialEq, Eq, Structural, Debug)]
pub enum TaskStatus {
    Pending,
    Assigned,
    InProgress,
    Completed,
    Failed,
}

impl TaskStatus {
    /// Completed and Failed admit no further transition.
    pub open spec fn is_terminal(self) -> bool {
        self == TaskStatus::Completed || self == TaskStatus::Failed
    }

    /// Position of a status along the lifecycle path; every legal step moves
    /// forward, never back.
    pub open spec fn rank(self) -> int {
        match self {
            TaskStatus::Pending => 0,
            TaskStatus::Assigned => 1,
            TaskStatus::InProgress => 2,
            TaskStatus::Completed => 3,
            TaskStatus::Failed => 4,
        }
    }
}

/// The task lifecycle state machine: staying put, one step along
/// Pending → Assigned → (InProgress →) Completed, or Failed from any
/// non-terminal state.
pub open spec fn lifecycle_step(before: TaskStatus, after: TaskStatus) -> bool {
    ||| after == before
    ||| (before == TaskStatus::Pending && after == TaskStatus::Assigned)
    ||| (before == TaskStatus::Assigned && after == TaskStatus::InProgress)
    ||| (before == TaskStatus::Assigned && after == TaskStatus::Completed)
    ||| (before == TaskStatus::InProgress && after == TaskStatus::Completed)
    ||| (!before.is_terminal() && after == TaskStatus::Failed)
}

/// A unit of work posted by a creator with a reward, lifecycle-tracked
/// through claim and completion.
#[derive(Debug)]
pub struct TaskOrder {
    /// The identity that posted the task; set at creation, never changed.
    pub creator: AccountId,
    /// Absent exactly while the task is pending; set by the claim that wins
    /// the task.
    pub assignee: Option<AccountId>,
    pub task_description: String,
    pub required_capabilities: Vec<String>,
    /// The reward offered; always positive.
    pub reward_amount: u64,
    /// The fund denomination the reward is paid in.
    pub reward_mint: AccountId,
    /// Advisory: nothing in this core reverts a task whose deadline passed.
    pub deadline: i64,
    pub status: TaskStatus,
    pub created_at: i64,
    /// Zero until the task is completed.
    pub completed_at: i64,
}

impl TaskOrder {
    /// The invariant every stored task satisfies: the assignee is absent
    /// exactly while the task is pending, the reward is positive, the
    /// sizes are bounded, and the completion time is unset before
    /// completion.
    pub open spec fn wf(self) -> bool {
        &&& (self.status == TaskStatus::Pending <==> self.assignee is None)
        &&& self.reward_amount > 0
        &&& self.task_description@.len() <= MAX_TASK_DESCRIPTION_LEN
        &&& capabilities_wf(self.required_capabilities@)
        &&& (self.status != TaskStatus::Completed ==> self.completed_at == 0)
    }
}

/// The inputs a caller must supply to post a task: a positive reward, a
/// deadline strictly after the current time, and bounded sizes.
/// `create_task_order` accepts exactly these and rejects everything else.
pub open spec fn task_inputs_wf(
    task_description: Seq<char>,
    required_capabilities: Seq<String>,
    reward_amount: u64,
    deadline: i64,
    now: i64,
) -> bool {
    &&& reward_amount > 0
    &&& now < deadline
    &&& task_description.len() <= MAX_TASK_DESCRIPTION_LEN
    &&& capabilities_wf(required_capabilities)
}

/// Decides `task_inputs_wf` on concrete task inputs.
pub fn check_task_inputs(
    task_description: &String,
    required_capabilities: &Vec<String>,
    reward_amount: u64,
    deadline: i64,
    now: i64,
) -> (ok: bool)
    ensures
        ok == task_inputs_wf(
            task_description@,
            required_capabilities@,
            reward_amount,
            deadline,
            now,
        ),
{
    reward_amount > 0 && now < deadline
        && task_description.as_str().unicode_len() <= MAX_TASK_DESCRIPTION_LEN
        && check_capabilities(required_capabilities)
}

/// A claim commits only on a pending task.
pub open spec fn claim_allowed(task: TaskOrder) -> bool {
    task.status == TaskStatus::Pending
}

/// The task as a successful claim leaves it: assigned to the claimant,
/// every other field untouched.
pub open spec fn claimed(task: TaskOrder, assignee: AccountId) -> TaskOrder {
    TaskOrder { assignee: Some(assignee), status: TaskStatus::Assigned, ..task }
}

/// A completion commits only for the recorded assignee of a task that is
/// assigned or in progress.
pub open spec fn complete_allowed(task: TaskOrder, caller: AccountId) -> bool {
    &&& task.status == TaskStatus::Assigned || task.status == TaskStatus::InProgress
    &&& task.assignee == Some(caller)
}

/// The task as a successful completion leaves it: completed at the given
/// time, every other field untouched.
pub open spec fn completed(task: TaskOrder, now: i64) -> TaskOrder {
    TaskOrder { status: TaskStatus::Completed, completed_at: now, ..task }
}

/// Law: every legal lifecycle step moves forward along the path — the
/// status ordering is monotone and a task never revisits a status.
pub proof fn lemma_lifecycle_monotonic(before: TaskStatus, after: TaskStatus)
    requires
        lifecycle_step(before, after),
    ensures
        before.rank() <= after.rank(),
        before.rank() == after.rank() ==> before == after,
{
}

/// Law: a pending task is claimed at most once. After one claimant
/// succeeds, the task is no longer pending, so every further claim attempt
/// is refused, whoever makes it — only the first of any number of competing
/// claims can commit.
pub proof fn lemma_claim_exactly_once(task: TaskOrder, first: AccountId, second: AccountId)
    requires
        claim_allowed(task),
    ensures
        claimed(task, first).assignee == Some(first),
        claimed(task, first).status == TaskStatus::Assigned,
        !claim_allowed(claimed(task, first)),
{
}

/// Law: a claim performs a legal lifecycle step and never fails a task.
pub proof fn lemma_claim_steps_lifecycle(task: TaskOrder, assignee: AccountId)
    requires
        claim_allowed(task),
    ensures
        lifecycle_step(task.status, claimed(task, assignee).status),
        claimed(task, assignee).status != TaskStatus::Failed,
{
}

/// Law: a completion performs a legal lifecycle step and never fails a
/// task, and a completed task can be completed no second time.
pub proof fn lemma_complete_steps_lifecycle(task: TaskOrder, caller: AccountId, now: i64)
    requires
        complete_allowed(task, caller),
    ensures
        lifecycle_step(task.status, completed(task, now).status),
        completed(task, now).status != TaskStatus::Failed,
        forall|other: AccountId| !complete_allowed(completed(task, now), other),
{
}

} // verus!
