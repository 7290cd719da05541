pub mod addressing;
pub mod auth;
mod bytes;
pub mod errors;
pub mod instructions;
pub mod ledger;
pub mod states;

pub use crate::auth::Signers;
pub use crate::errors::ErrorCode;
pub use crate::instructions::create_proposal::create_proposal_handler;
pub use crate::instructions::create_proposal::CreateProposal;
pub use crate::instructions::vote::VoteInstruction;
pub use crate::ledger::Ledger;
pub use crate::ledger::LedgerView;
pub use crate::states::proposal::Proposal;
pub use crate::states::proposal::ProposalView;
pub use crate::states::vote::Vote;
pub use crate::states::vote::VoteView;

use vstd::prelude::*;

verus! {

/// Instruction entry point: publishes a proposal. Forwards to
/// [`create_proposal_handler`] and keeps its exact contract.
pub fn create_proposal(
    ledger: &mut Ledger,
    signers: &Signers,
    ctx: &CreateProposal,
    uri: String,
    hash: [u8; 32],
) -> (r: Result<(), ErrorCode>)
    ensures
        (final(ledger)@, r) == crate::instructions::create_proposal::create_proposal_spec(
            old(ledger)@,
            signers@,
            ctx.author@,
            ctx.payer@,
            ctx.payer_balance,
            uri@,
            hash@,
        ),
{
    create_proposal_handler(ledger, signers, ctx, uri, hash)
}

/// Instruction entry point: casts a vote. Forwards to the vote handler and
/// keeps its exact contract.
pub fn vote(ledger: &mut Ledger, signers: &Signers, ctx: &VoteInstruction, choice: u8) -> (r:
    Result<(), ErrorCode>)
    ensures
        (final(ledger)@, r) == crate::instructions::vote::vote_spec(
            old(ledger)@,
            signers@,
            ctx.proposal@,
            ctx.voter@,
            ctx.payer@,
            ctx.payer_balance,
            choice,
        ),
{
    crate::instructions::vote::vote(ledger, signers, ctx, choice)
}

} // verus!
