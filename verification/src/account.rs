use vstd::prelude::*;

verus! {

/// The identity of a party on the ledger: the registering owner of a
/// service, the creator or assignee of a task, the payer or payee of an
/// escrow, or a fund denomination that a reward is paid in.
///
/// The surrounding ledger substrate resolves real keys; this core only ever
/// compares identities for equality, so an identity is modeled as a plain
/// integer handle.
#[derive(Clone, Copy, PartialEq, Eq, Structural, Debug)]
pub struct AccountId {
    pub id: u64,
}

} // verus!
