//! A verified ledger core for a decentralized task marketplace.
//!
//! Service providers register their capabilities and pricing, clients post
//! task orders with a reward, providers claim and complete tasks, and a
//! per-task escrow record tracks whether the reward has been released.
//! The heart of the library is the task lifecycle and escrow state machine:
//! every operation checks authorization and state before it commits a
//! transition, every transition appends one event to an append-only log,
//! and the well-formedness invariant of the ledger (assignment matches
//! status, at most one escrow per task, escrow fields mirror the completed
//! task) is proved to be preserved by every operation.
//!
//! The surrounding record store, settlement rail and wall clock are external
//! collaborators: callers hand each operation the caller identity and the
//! current timestamp as plain values, and the library never performs I/O.

pub mod account;
pub mod bounds;
pub mod errors;
pub mod escrow;
pub mod events;
pub mod ledger;
pub mod registry;
pub mod task;

pub use account::AccountId;
pub use errors::SynergyError;
pub use escrow::TaskEscrow;
pub use events::LedgerEvent;
pub use events::PaymentReleased;
pub use events::ServiceRegistered;
pub use events::TaskClaimed;
pub use events::TaskCompleted;
pub use events::TaskCreated;
pub use ledger::SynergyLedger;
pub use registry::PricingModel;
pub use registry::ServiceRegistration;
pub use task::TaskOrder;
pub use task::TaskStatus;
