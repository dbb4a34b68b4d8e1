use vstd::prelude::*;

use crate::account::AccountId;
use crate::errors::SynergyError;
use crate::escrow::TaskEscrow;
use crate::escrow::after_release;
use crate::escrow::release_allowed;
use crate::events::LedgerEvent;
use crate::events::PaymentReleased;
use crate::events::ServiceRegistered;
use crate::events::TaskClaimed;
use crate::events::TaskCompleted;
use crate::events::TaskCreated;
use crate::registry::PricingModel;
use crate::registry::ServiceRegistration;
use crate::registry::check_register_inputs;
use crate::registry::register_inputs_wf;
use crate::task::TaskOrder;
use crate::task::TaskStatus;
use crate::task::check_task_inputs;
use crate::task::claim_allowed;
use crate::task::claimed;
use crate::task::complete_allowed;
use crate::task::completed;
use crate::task::lifecycle_step;
use crate::task::task_inputs_wf;

verus! {

/// The marketplace ledger: the persisted service, task and escrow records,
/// and the append-only event log. Records are keyed by their position in
/// their list — a fresh record's identifier is the index it is appended at.
///
/// The fields are private: records are mutated only by the operations
/// below, each of which checks authorization and state before it commits a
/// transition, so `wf` holds of every ledger a caller can ever hold.
///
/// Concurrency: the surrounding record store applies one operation at a
/// time, all-or-nothing, in a global serial order. Each method here is one
/// such atomic step; racing callers are arbitrated by that order, and the
/// loser of a race observes the committed post-state and fails.
pub struct SynergyLedger {
    services: Vec<ServiceRegistration>,
    tasks: Vec<TaskOrder>,
    escrows: Vec<TaskEscrow>,
    events: Vec<LedgerEvent>,
}

impl SynergyLedger {
    /// The registered service records, in creation order.
    pub closed spec fn services_seq(self) -> Seq<ServiceRegistration> {
        self.services@
    }

    /// The task records, in creation order.
    pub closed spec fn tasks_seq(self) -> Seq<TaskOrder> {
        self.tasks@
    }

    /// The escrow records, in creation order.
    pub closed spec fn escrows_seq(self) -> Seq<TaskEscrow> {
        self.escrows@
    }

    /// The event log, in commit order.
    pub closed spec fn events_seq(self) -> Seq<LedgerEvent> {
        self.events@
    }

    /// The escrow at position `j` refers to an existing, completed task,
    /// and its parties and amount mirror that task: the payer is the task's
    /// creator, the payee its assignee, the amount its reward.
    pub open spec fn escrow_matches_task(self, j: int) -> bool {
        let escrow = self.escrows_seq()[j];
        let task = self.tasks_seq()[escrow.task_id as int];
        &&& escrow.task_id < self.tasks_seq().len()
        &&& task.status == TaskStatus::Completed
        &&& task.creator == escrow.payer
        &&& task.assignee == Some(escrow.payee)
        &&& task.reward_amount == escrow.amount
        &&& task.reward_mint == escrow.token_mint
    }

    /// The ledger invariant: every record satisfies its own invariant,
    /// every escrow mirrors its completed task, and no task has more than
    /// one escrow. Established by `initialize` and preserved by every
    /// operation.
    pub open spec fn wf(self) -> bool {
        &&& forall|i: int|
            0 <= i < self.services_seq().len() ==> (#[trigger] self.services_seq()[i]).wf()
        &&& forall|i: int| 0 <= i < self.tasks_seq().len() ==> (#[trigger] self.tasks_seq()[i]).wf()
        &&& forall|j: int| 0 <= j < self.escrows_seq().len() ==> #[trigger] self.escrow_matches_task(j)
        &&& forall|j: int, k: int|
            0 <= j < self.escrows_seq().len() && 0 <= k < self.escrows_seq().len()
                && (#[trigger] self.escrows_seq()[j]).task_id
                == (#[trigger] self.escrows_seq()[k]).task_id ==> j == k
    }

    /// Sets up an empty ledger: no records and no events yet.
    pub fn initialize() -> (ledger: SynergyLedger)
        ensures
            ledger.wf(),
            ledger.services_seq().len() == 0,
            ledger.tasks_seq().len() == 0,
            ledger.escrows_seq().len() == 0,
            ledger.events_seq().len() == 0,
    {
        SynergyLedger {
            services: Vec::new(),
            tasks: Vec::new(),
            escrows: Vec::new(),
            events: Vec::new(),
        }
    }

    /// Creates a provider profile owned by the caller and returns its
    /// identifier. Succeeds exactly on well-formed inputs; rejects
    /// everything else with `ValidationError` and no mutation. The new
    /// record always starts with a reputation score of zero and zero
    /// completed tasks, whatever the inputs.
    pub fn register_service(
        &mut self,
        caller: AccountId,
        service_name: String,
        capabilities: Vec<String>,
        pricing_model: PricingModel,
        endpoint_url: String,
        now: i64,
    ) -> (result: Result<usize, SynergyError>)
        requires
            old(self).wf(),
        ensures
            final(self).wf(),
            final(self).tasks_seq() == old(self).tasks_seq(),
            final(self).escrows_seq() == old(self).escrows_seq(),
            result is Ok <==> register_inputs_wf(
                service_name@,
                capabilities@,
                pricing_model,
                endpoint_url@,
            ),
            (result matches Ok(service_id) ==> {
                &&& service_id == old(self).services_seq().len()
                &&& final(self).services_seq() == old(self).services_seq().push(
                    (ServiceRegistration {
                        owner: caller,
                        service_name,
                        capabilities,
                        pricing_model,
                        endpoint_url,
                        reputation_score: 0,
                        total_tasks_completed: 0,
                        created_at: now,
                        updated_at: now,
                    }),
                )
                &&& final(self).services_seq().last().reputation_score == 0
                &&& final(self).services_seq().last().total_tasks_completed == 0
                &&& final(self).events_seq() == old(self).events_seq().push(
                    (LedgerEvent::ServiceRegistered(ServiceRegistered {
                        service_owner: caller,
                        service_name,
                    })),
                )
            }),
            result is Err ==> {
                &&& result == Err::<usize, SynergyError>(SynergyError::ValidationError)
                &&& *final(self) == *old(self)
            },
    {
        if !check_register_inputs(&service_name, &capabilities, &pricing_model, &endpoint_url) {
            return Err(SynergyError::ValidationError);
        }
        let event_name = service_name.clone();
        let service_id = self.services.len();
        self.services.push(
            ServiceRegistration {
                owner: caller,
                service_name,
                capabilities,
                pricing_model,
                endpoint_url,
                reputation_score: 0,
                total_tasks_completed: 0,
                created_at: now,
                updated_at: now,
            },
        );
        self.events.push(
            LedgerEvent::ServiceRegistered(ServiceRegistered {
                service_owner: caller,
                service_name: event_name,
            }),
        );
        proof {
            assert forall|i: int|
                0 <= i < self.tasks_seq().len() implies (#[trigger] self.tasks_seq()[i]).wf() by {
                assert(self.tasks_seq()[i] == old(self).tasks_seq()[i]);
            }
            assert forall|j: int| 0 <= j < self.escrows_seq().len() implies #[trigger] self
                .escrow_matches_task(j) by {
                assert(old(self).escrow_matches_task(j));
            }
            assert forall|i: int|
                0 <= i < self.services_seq().len() implies (#[trigger] self.services_seq()[i]).wf()
                by {
                if i < old(self).services_seq().len() {
                    assert(self.services_seq()[i] == old(self).services_seq()[i]);
                }
            }
        }
        Ok(service_id)
    }

    /// Posts a task order created by the caller and returns its identifier.
    /// Succeeds exactly on well-formed inputs — a positive reward, a
    /// deadline strictly after `now`, bounded sizes — and rejects
    /// everything else with `ValidationError` and no mutation. The new task
    /// starts pending and unassigned.
    pub fn create_task_order(
        &mut self,
        caller: AccountId,
        task_description: String,
        required_capabilities: Vec<String>,
        reward_amount: u64,
        reward_mint: AccountId,
        deadline: i64,
        now: i64,
    ) -> (result: Result<usize, SynergyError>)
        requires
            old(self).wf(),
        ensures
            final(self).wf(),
            final(self).services_seq() == old(self).services_seq(),
            final(self).escrows_seq() == old(self).escrows_seq(),
            result is Ok <==> task_inputs_wf(
                task_description@,
                required_capabilities@,
                reward_amount,
                deadline,
                now,
            ),
            (result matches Ok(task_id) ==> {
                &&& task_id == old(self).tasks_seq().len()
                &&& final(self).tasks_seq() == old(self).tasks_seq().push(
                    (TaskOrder {
                        creator: caller,
                        assignee: None,
                        task_description,
                        required_capabilities,
                        reward_amount,
                        reward_mint,
                        deadline,
                        status: TaskStatus::Pending,
                        created_at: now,
                        completed_at: 0,
                    }),
                )
                &&& final(self).events_seq() == old(self).events_seq().push(
                    (LedgerEvent::TaskCreated(TaskCreated { task_id, creator: caller })),
                )
            }),
            result is Err ==> {
                &&& result == Err::<usize, SynergyError>(SynergyError::ValidationError)
                &&& *final(self) == *old(self)
            },
    {
        if !check_task_inputs(&task_description, &required_capabilities, reward_amount, deadline, now) {
            return Err(SynergyError::ValidationError);
        }
        let task_id = self.tasks.len();
        self.tasks.push(
            TaskOrder {
                creator: caller,
                assignee: None,
                task_description,
                required_capabilities,
                reward_amount,
                reward_mint,
                deadline,
                status: TaskStatus::Pending,
                created_at: now,
                completed_at: 0,
            },
        );
        self.events.push(LedgerEvent::TaskCreated(TaskCreated { task_id, creator: caller }));
        proof {
            assert forall|i: int|
                0 <= i < self.services_seq().len() implies (#[trigger] self.services_seq()[i]).wf()
                by {
                assert(self.services_seq()[i] == old(self).services_seq()[i]);
            }
            assert forall|i: int|
                0 <= i < self.tasks_seq().len() implies (#[trigger] self.tasks_seq()[i]).wf() by {
                if i < old(self).tasks_seq().len() {
                    assert(self.tasks_seq()[i] == old(self).tasks_seq()[i]);
                }
            }
            assert forall|j: int| 0 <= j < self.escrows_seq().len() implies #[trigger] self
                .escrow_matches_task(j) by {
                assert(old(self).escrow_matches_task(j));
                assert(self.tasks_seq()[self.escrows_seq()[j].task_id as int] == old(
                    self,
                ).tasks_seq()[self.escrows_seq()[j].task_id as int]);
            }
        }
        Ok(task_id)
    }

    /// Claims a pending task for the caller. Succeeds exactly while the
    /// task is still pending; on any other status it rejects with
    /// `TaskAlreadyAssigned` and no mutation, so of any number of racing
    /// claimants only the first to commit wins the task and the task is
    /// never silently reassigned. Every task the operation leaves behind
    /// stands one legal lifecycle step (or none) from where it stood, and
    /// no task is moved to Failed.
    pub fn claim_task(&mut self, caller: AccountId, task_id: usize) -> (result: Result<
        (),
        SynergyError,
    >)
        requires
            old(self).wf(),
            task_id < old(self).tasks_seq().len(),
        ensures
            final(self).wf(),
            final(self).services_seq() == old(self).services_seq(),
            final(self).escrows_seq() == old(self).escrows_seq(),
            final(self).tasks_seq().len() == old(self).tasks_seq().len(),
            forall|i: int|
                0 <= i < old(self).tasks_seq().len() && i != task_id ==> final(self).tasks_seq()[i]
                    == old(self).tasks_seq()[i],
            result is Ok <==> claim_allowed(old(self).tasks_seq()[task_id as int]),
            result is Ok ==> {
                &&& final(self).tasks_seq()[task_id as int] == claimed(
                    old(self).tasks_seq()[task_id as int],
                    caller,
                )
                &&& final(self).events_seq() == old(self).events_seq().push(
                    (LedgerEvent::TaskClaimed(TaskClaimed { task_id, assignee: caller })),
                )
            },
            result is Err ==> {
                &&& result == Err::<(), SynergyError>(SynergyError::TaskAlreadyAssigned)
                &&& *final(self) == *old(self)
            },
            forall|i: int|
                0 <= i < old(self).tasks_seq().len() ==> lifecycle_step(
                    old(self).tasks_seq()[i].status,
                    (#[trigger] final(self).tasks_seq()[i]).status,
                ),
            forall|i: int|
                0 <= i < old(self).tasks_seq().len()
                    && (#[trigger] final(self).tasks_seq()[i]).status == TaskStatus::Failed ==> old(
                    self,
                ).tasks_seq()[i].status == TaskStatus::Failed,
    {
        if !(self.tasks[task_id].status == TaskStatus::Pending) {
            return Err(SynergyError::TaskAlreadyAssigned);
        }
        let task = &mut self.tasks[task_id];
        task.assignee = Some(caller);
        task.status = TaskStatus::Assigned;
        self.events.push(LedgerEvent::TaskClaimed(TaskClaimed { task_id, assignee: caller }));
        proof {
            assert forall|i: int|
                0 <= i < self.services_seq().len() implies (#[trigger] self.services_seq()[i]).wf()
                by {
                assert(self.services_seq()[i] == old(self).services_seq()[i]);
            }
            assert forall|i: int|
                0 <= i < self.tasks_seq().len() implies (#[trigger] self.tasks_seq()[i]).wf() by {
                if i != task_id {
                    assert(self.tasks_seq()[i] == old(self).tasks_seq()[i]);
                }
            }
            assert forall|j: int| 0 <= j < self.escrows_seq().len() implies #[trigger] self
                .escrow_matches_task(j) by {
                assert(old(self).escrow_matches_task(j));
                assert(old(self).tasks_seq()[self.escrows_seq()[j].task_id as int].status
                    == TaskStatus::Completed);
                assert(self.escrows_seq()[j].task_id != task_id);
                assert(self.tasks_seq()[self.escrows_seq()[j].task_id as int] == old(
                    self,
                ).tasks_seq()[self.escrows_seq()[j].task_id as int]);
            }
            assert forall|j: int, k: int|
                0 <= j < self.escrows_seq().len() && 0 <= k < self.escrows_seq().len()
                    && (#[trigger] self.escrows_seq()[j]).task_id
                    == (#[trigger] self.escrows_seq()[k]).task_id implies j == k by {
                assert(old(self).escrows_seq()[j].task_id == old(self).escrows_seq()[k].task_id);
            }
        }
        Ok(())
    }

    /// Completes a task for the caller and atomically creates the one
    /// escrow record that holds its reward. Succeeds exactly when the task
    /// is assigned or in progress — else `InvalidTaskStatus` — and the
    /// caller is the recorded assignee — else `UnauthorizedCompleter`; a
    /// rejection mutates nothing. On success the new escrow's payer is the
    /// task's creator, its payee the completer, its amount the task's
    /// reward, and its payment is not yet released; the returned identifier
    /// names that escrow. `result_hash` is an opaque proof-of-work digest
    /// carried by the caller; no verification policy is in scope here, so
    /// it does not gate the transition. Every task the operation leaves
    /// behind stands one legal lifecycle step (or none) from where it
    /// stood, and no task is moved to Failed.
    pub fn complete_task(
        &mut self,
        caller: AccountId,
        task_id: usize,
        result_hash: [u8; 32],
        now: i64,
    ) -> (result: Result<usize, SynergyError>)
        requires
            old(self).wf(),
            task_id < old(self).tasks_seq().len(),
        ensures
            final(self).wf(),
            final(self).services_seq() == old(self).services_seq(),
            final(self).tasks_seq().len() == old(self).tasks_seq().len(),
            forall|i: int|
                0 <= i < old(self).tasks_seq().len() && i != task_id ==> final(self).tasks_seq()[i]
                    == old(self).tasks_seq()[i],
            result is Ok <==> complete_allowed(old(self).tasks_seq()[task_id as int], caller),
            (result matches Ok(escrow_id) ==> {
                &&& escrow_id == old(self).escrows_seq().len()
                &&& final(self).tasks_seq()[task_id as int] == completed(
                    old(self).tasks_seq()[task_id as int],
                    now,
                )
                &&& final(self).escrows_seq() == old(self).escrows_seq().push(
                    (TaskEscrow {
                        task_id,
                        payer: old(self).tasks_seq()[task_id as int].creator,
                        payee: caller,
                        amount: old(self).tasks_seq()[task_id as int].reward_amount,
                        token_mint: old(self).tasks_seq()[task_id as int].reward_mint,
                        released: false,
                        created_at: now,
                    }),
                )
                &&& final(self).events_seq() == old(self).events_seq().push(
                    (LedgerEvent::TaskCompleted(TaskCompleted { task_id, completer: caller })),
                )
            }),
            !(old(self).tasks_seq()[task_id as int].status == TaskStatus::Assigned || old(
                self,
            ).tasks_seq()[task_id as int].status == TaskStatus::InProgress) ==> result == Err::<
                usize,
                SynergyError,
            >(SynergyError::InvalidTaskStatus),
            (old(self).tasks_seq()[task_id as int].status == TaskStatus::Assigned || old(
                self,
            ).tasks_seq()[task_id as int].status == TaskStatus::InProgress) && old(
                self,
            ).tasks_seq()[task_id as int].assignee != Some(caller) ==> result == Err::<
                usize,
                SynergyError,
            >(SynergyError::UnauthorizedCompleter),
            result is Err ==> *final(self) == *old(self),
            forall|i: int|
                0 <= i < old(self).tasks_seq().len() ==> lifecycle_step(
                    old(self).tasks_seq()[i].status,
                    (#[trigger] final(self).tasks_seq()[i]).status,
                ),
            forall|i: int|
                0 <= i < old(self).tasks_seq().len()
                    && (#[trigger] final(self).tasks_seq()[i]).status == TaskStatus::Failed ==> old(
                    self,
                ).tasks_seq()[i].status == TaskStatus::Failed,
    {
        let status_ok = self.tasks[task_id].status == TaskStatus::Assigned
            || self.tasks[task_id].status == TaskStatus::InProgress;
        if !status_ok {
            return Err(SynergyError::InvalidTaskStatus);
        }
        let assignee_ok = match self.tasks[task_id].assignee {
            Some(assignee) => assignee == caller,
            None => false,
        };
        if !assignee_ok {
            return Err(SynergyError::UnauthorizedCompleter);
        }
        let payer = self.tasks[task_id].creator;
        let amount = self.tasks[task_id].reward_amount;
        let token_mint = self.tasks[task_id].reward_mint;
        let task = &mut self.tasks[task_id];
        task.status = TaskStatus::Completed;
        task.completed_at = now;
        let escrow_id = self.escrows.len();
        self.escrows.push(
            TaskEscrow {
                task_id,
                payer,
                payee: caller,
                amount,
                token_mint,
                released: false,
                created_at: now,
            },
        );
        self.events.push(LedgerEvent::TaskCompleted(TaskCompleted { task_id, completer: caller }));
        proof {
            assert forall|i: int|
                0 <= i < self.services_seq().len() implies (#[trigger] self.services_seq()[i]).wf()
                by {
                assert(self.services_seq()[i] == old(self).services_seq()[i]);
            }
            assert forall|i: int|
                0 <= i < self.tasks_seq().len() implies (#[trigger] self.tasks_seq()[i]).wf() by {
                if i != task_id {
                    assert(self.tasks_seq()[i] == old(self).tasks_seq()[i]);
                }
            }
            assert forall|j: int| 0 <= j < self.escrows_seq().len() implies #[trigger] self
                .escrow_matches_task(j) by {
                if j < old(self).escrows_seq().len() {
                    assert(old(self).escrow_matches_task(j));
                    assert(self.escrows_seq()[j] == old(self).escrows_seq()[j]);
                    assert(old(self).tasks_seq()[self.escrows_seq()[j].task_id as int].status
                        == TaskStatus::Completed);
                    assert(self.escrows_seq()[j].task_id != task_id);
                    assert(self.tasks_seq()[self.escrows_seq()[j].task_id as int] == old(
                        self,
                    ).tasks_seq()[self.escrows_seq()[j].task_id as int]);
                }
            }
            assert forall|j: int, k: int|
                0 <= j < self.escrows_seq().len() && 0 <= k < self.escrows_seq().len()
                    && (#[trigger] self.escrows_seq()[j]).task_id
                    == (#[trigger] self.escrows_seq()[k]).task_id implies j == k by {
                if j < old(self).escrows_seq().len() && k < old(self).escrows_seq().len() {
                    assert(old(self).escrows_seq()[j].task_id == old(
                        self,
                    ).escrows_seq()[k].task_id);
                } else if j < old(self).escrows_seq().len() {
                    assert(old(self).escrow_matches_task(j));
                } else if k < old(self).escrows_seq().len() {
                    assert(old(self).escrow_matches_task(k));
                }
            }
        }
        Ok(escrow_id)
    }

    /// Releases the payment an escrow holds. Succeeds exactly when the
    /// payment is still held — else `PaymentAlreadyReleased` — and the
    /// caller is the recorded payer — else `UnauthorizedReleaser`; a
    /// rejection mutates nothing, so once released an escrow stays released
    /// and every later release attempt on it fails. This core only flips
    /// the flag and emits the event; moving the funds is the settlement
    /// collaborator's contract.
    pub fn release_payment(&mut self, caller: AccountId, escrow_id: usize) -> (result: Result<
        (),
        SynergyError,
    >)
        requires
            old(self).wf(),
            escrow_id < old(self).escrows_seq().len(),
        ensures
            final(self).wf(),
            final(self).services_seq() == old(self).services_seq(),
            final(self).tasks_seq() == old(self).tasks_seq(),
            final(self).escrows_seq().len() == old(self).escrows_seq().len(),
            forall|j: int|
                0 <= j < old(self).escrows_seq().len() && j != escrow_id
                    ==> final(self).escrows_seq()[j] == old(self).escrows_seq()[j],
            result is Ok <==> release_allowed(old(self).escrows_seq()[escrow_id as int], caller),
            result is Ok ==> {
                &&& final(self).escrows_seq()[escrow_id as int] == after_release(
                    old(self).escrows_seq()[escrow_id as int],
                )
                &&& final(self).events_seq() == old(self).events_seq().push(
                    (LedgerEvent::PaymentReleased(PaymentReleased {
                        escrow_id,
                        amount: old(self).escrows_seq()[escrow_id as int].amount,
                        payee: old(self).escrows_seq()[escrow_id as int].payee,
                    })),
                )
            },
            old(self).escrows_seq()[escrow_id as int].released ==> result == Err::<
                (),
                SynergyError,
            >(SynergyError::PaymentAlreadyReleased),
            !old(self).escrows_seq()[escrow_id as int].released && caller != old(
                self,
            ).escrows_seq()[escrow_id as int].payer ==> result == Err::<(), SynergyError>(
                SynergyError::UnauthorizedReleaser,
            ),
            result is Err ==> *final(self) == *old(self),
    {
        if self.escrows[escrow_id].released {
            return Err(SynergyError::PaymentAlreadyReleased);
        }
        if !(self.escrows[escrow_id].payer == caller) {
            return Err(SynergyError::UnauthorizedReleaser);
        }
        let amount = self.escrows[escrow_id].amount;
        let payee = self.escrows[escrow_id].payee;
        let escrow = &mut self.escrows[escrow_id];
        escrow.released = true;
        self.events.push(
            LedgerEvent::PaymentReleased(PaymentReleased { escrow_id, amount, payee }),
        );
        proof {
            assert forall|i: int|
                0 <= i < self.services_seq().len() implies (#[trigger] self.services_seq()[i]).wf()
                by {
                assert(self.services_seq()[i] == old(self).services_seq()[i]);
            }
            assert forall|i: int|
                0 <= i < self.tasks_seq().len() implies (#[trigger] self.tasks_seq()[i]).wf() by {
                assert(self.tasks_seq()[i] == old(self).tasks_seq()[i]);
            }
            assert forall|j: int| 0 <= j < self.escrows_seq().len() implies #[trigger] self
                .escrow_matches_task(j) by {
                assert(old(self).escrow_matches_task(j));
                assert(self.escrows_seq()[j].task_id == old(self).escrows_seq()[j].task_id);
            }
            assert forall|j: int, k: int|
                0 <= j < self.escrows_seq().len() && 0 <= k < self.escrows_seq().len()
                    && (#[trigger] self.escrows_seq()[j]).task_id
                    == (#[trigger] self.escrows_seq()[k]).task_id implies j == k by {
                assert(self.escrows_seq()[j].task_id == old(self).escrows_seq()[j].task_id);
                assert(self.escrows_seq()[k].task_id == old(self).escrows_seq()[k].task_id);
                assert(old(self).escrows_seq()[j].task_id == old(self).escrows_seq()[k].task_id);
            }
        }
        Ok(())
    }

    /// How many service records the ledger holds.
    pub fn service_count(&self) -> (count: usize)
        ensures
            count == self.services_seq().len(),
    {
        self.services.len()
    }

    /// The service record a registration returned the identifier of.
    pub fn get_service(&self, service_id: usize) -> (service: &ServiceRegistration)
        requires
            service_id < self.services_seq().len(),
        ensures
            *service == self.services_seq()[service_id as int],
    {
        &self.services[service_id]
    }

    /// How many task records the ledger holds.
    pub fn task_count(&self) -> (count: usize)
        ensures
            count == self.tasks_seq().len(),
    {
        self.tasks.len()
    }

    /// The task record a creation returned the identifier of.
    pub fn get_task(&self, task_id: usize) -> (task: &TaskOrder)
        requires
            task_id < self.tasks_seq().len(),
        ensures
            *task == self.tasks_seq()[task_id as int],
    {
        &self.tasks[task_id]
    }

    /// How many escrow records the ledger holds.
    pub fn escrow_count(&self) -> (count: usize)
        ensures
            count == self.escrows_seq().len(),
    {
        self.escrows.len()
    }

    /// The escrow record a completion returned the identifier of.
    pub fn get_escrow(&self, escrow_id: usize) -> (escrow: &TaskEscrow)
        requires
            escrow_id < self.escrows_seq().len(),
        ensures
            *escrow == self.escrows_seq()[escrow_id as int],
    {
        &self.escrows[escrow_id]
    }

    /// How many events the log holds.
    pub fn event_count(&self) -> (count: usize)
        ensures
            count == self.events_seq().len(),
    {
        self.events.len()
    }

    /// One entry of the event log, in commit order.
    pub fn get_event(&self, index: usize) -> (event: &LedgerEvent)
        requires
            index < self.events_seq().len(),
        ensures
            *event == self.events_seq()[index as int],
    {
        &self.events[index]
    }
}

/// Law: a task is paired with at most one escrow — two escrow records of a
/// well-formed ledger that pay for the same task are the same record.
pub proof fn lemma_escrow_unique_per_task(ledger: SynergyLedger, j: int, k: int)
    requires
        ledger.wf(),
        0 <= j < ledger.escrows_seq().len(),
        0 <= k < ledger.escrows_seq().len(),
        ledger.escrows_seq()[j].task_id == ledger.escrows_seq()[k].task_id,
    ensures
        j == k,
{
}

/// Law: every escrow of a well-formed ledger pays for a completed task, and
/// its payer, payee, amount and denomination mirror that task's creator,
/// assignee, reward and denomination.
pub proof fn lemma_escrow_mirrors_task(ledger: SynergyLedger, j: int)
    requires
        ledger.wf(),
        0 <= j < ledger.escrows_seq().len(),
    ensures
        ledger.escrows_seq()[j].task_id < ledger.tasks_seq().len(),
        ledger.tasks_seq()[ledger.escrows_seq()[j].task_id as int].status == TaskStatus::Completed,
        ledger.tasks_seq()[ledger.escrows_seq()[j].task_id as int].creator
            == ledger.escrows_seq()[j].payer,
        ledger.tasks_seq()[ledger.escrows_seq()[j].task_id as int].assignee == Some(
            ledger.escrows_seq()[j].payee,
        ),
        ledger.tasks_seq()[ledger.escrows_seq()[j].task_id as int].reward_amount
            == ledger.escrows_seq()[j].amount,
{
    assert(ledger.escrow_matches_task(j));
}

} // verus!
