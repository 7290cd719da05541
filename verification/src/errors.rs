use vstd::prelude::*;

verus! {

/// The reasons a state-transition can be refused. Every failure aborts the
/// whole transaction: the handlers guarantee that nothing is written on any
/// error path.
#[derive(Clone, Copy, Debug, PartialEq, Eq, Structural)]
pub enum ErrorCode {
    /// The payer supplied to a vote does not match the payer recorded on the
    /// proposal being voted on. This is the one explicit business-rule check;
    /// it is raised inside the vote handler itself.
    InvalidPayer,
    /// A required signer (author, voter or payer) did not authorize the
    /// transaction. On a live ledger the host runtime enforces this at its
    /// boundary; here the check is an explicit part of each handler.
    AuthorizationFailure,
    /// The derived address already holds a record: a duplicate proposal for
    /// the same (author, hash), or a repeat vote by the same voter on the
    /// same proposal. Raised by the storage layer's create-if-absent
    /// primitive.
    DuplicateRecord,
    /// The payer cannot fund the storage cost of the record to be created.
    InsufficientFunds,
    /// No valid derived address exists for the given seeds: the bump search
    /// found no usable nonce. Statistically improbable, but the search is
    /// allowed to fail, so the handlers must account for it.
    DerivationFailure,
    /// The proposal named by a vote is not present in the store. On a live
    /// ledger the host runtime fails to resolve the account before the
    /// handler runs.
    ProposalNotFound,
}

} // verus!
