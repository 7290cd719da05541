use vstd::prelude::*;

verus! {

use crate::addressing::derive_vote_address;
use crate::addressing::vote_address;
use crate::auth::Signers;
use crate::bytes::bytes32_eq;
use crate::errors::ErrorCode;
use crate::ledger::Ledger;
use crate::ledger::LedgerView;
use crate::states::vote::Vote;
use crate::states::vote::VoteView;

/// The accounts a vote transaction names, reduced to the plain values the
/// handler reads.
pub struct VoteInstruction {
    /// Address of the proposal being voted on; the record there must exist.
    pub proposal: [u8; 32],
    /// The identity casting the vote; must have signed the transaction.
    pub voter: [u8; 32],
    /// The funding identity; must have signed and must equal the payer
    /// recorded on the proposal.
    pub payer: [u8; 32],
    /// The balance available on the payer's account, in the host's storage
    /// cost unit.
    pub payer_balance: u64,
}

/// Storage size, in bytes, of a vote record: the host's 8-byte header, then
/// the bump, the voter, the proposal address and the choice byte.
pub open spec fn vote_space() -> nat {
    8 + 1 + 32 + 32 + 1
}

/// The whole meaning of vote: one function from the old store and the
/// transaction's inputs to the new store and the caller-visible result.
/// Refusals, in order: no proposal at the named address, no derivable vote
/// address, a missing signature, a payer other than the one the proposal
/// records, an occupied vote address, missing funds; every refusal leaves
/// the store unchanged.
pub open spec fn vote_spec(
    l: LedgerView,
    signed: Set<Seq<u8>>,
    proposal: Seq<u8>,
    voter: Seq<u8>,
    payer: Seq<u8>,
    payer_balance: u64,
    choice: u8,
) -> (LedgerView, Result<(), ErrorCode>) {
    if !l.proposals.contains_key(proposal) {
        (l, Err(ErrorCode::ProposalNotFound))
    } else {
        match vote_address(l.program_id, proposal, voter) {
            None => (l, Err(ErrorCode::DerivationFailure)),
            Some((addr, bump)) => if !(signed.contains(voter) && signed.contains(payer)) {
                (l, Err(ErrorCode::AuthorizationFailure))
            } else if payer != l.proposals[proposal].payer {
                (l, Err(ErrorCode::InvalidPayer))
            } else if l.votes.contains_key(addr) {
                (l, Err(ErrorCode::DuplicateRecord))
            } else if (payer_balance as nat) < vote_space() {
                (l, Err(ErrorCode::InsufficientFunds))
            } else {
                (
                    LedgerView {
                        votes: l.votes.insert(
                            addr,
                            VoteView { bump, voter, proposal_id: proposal, choice },
                        ),
                        ..l
                    },
                    Ok(()),
                )
            },
        }
    }
}

/// Records `voter`'s choice on the proposal stored at `ctx.proposal`, at the
/// vote's own derived address. Succeeds exactly when that proposal exists,
/// the vote address derivation succeeds, voter and payer both signed, the
/// payer equals the payer recorded on the proposal, no vote by this voter
/// on this proposal exists yet, and the payer can fund the record; the
/// store changes only on success.
pub fn vote(ledger: &mut Ledger, signers: &Signers, ctx: &VoteInstruction, choice: u8) -> (r:
    Result<(), ErrorCode>)
    ensures
        (final(ledger)@, r) == vote_spec(
            old(ledger)@,
            signers@,
            ctx.proposal@,
            ctx.voter@,
            ctx.payer@,
            ctx.payer_balance,
            choice,
        ),
{
    let recorded_payer: [u8; 32] = match ledger.get_proposal(&ctx.proposal) {
        None => {
            return Err(ErrorCode::ProposalNotFound);
        },
        Some(p) => p.payer,
    };
    let program_id = ledger.program_id();
    let derived = derive_vote_address(&program_id, &ctx.proposal, &ctx.voter);
    let (addr, bump) = match derived {
        None => {
            return Err(ErrorCode::DerivationFailure);
        },
        Some(ab) => ab,
    };
    if !(signers.is_signer(&ctx.voter) && signers.is_signer(&ctx.payer)) {
        return Err(ErrorCode::AuthorizationFailure);
    }
    if !bytes32_eq(&ctx.payer, &recorded_payer) {
        return Err(ErrorCode::InvalidPayer);
    }
    if ledger.get_vote(&addr).is_some() {
        return Err(ErrorCode::DuplicateRecord);
    }
    let space: u64 = 8 + 1 + 32 + 32 + 1;
    if ctx.payer_balance < space {
        return Err(ErrorCode::InsufficientFunds);
    }
    let ghost goal = vote_spec(
        old(ledger)@,
        signers@,
        ctx.proposal@,
        ctx.voter@,
        ctx.payer@,
        ctx.payer_balance,
        choice,
    );
    let record = Vote { bump, voter: ctx.voter, proposal_id: ctx.proposal, choice };
    let stored = ledger.put_vote_if_absent(addr, record);
    proof {
        assert(stored is Ok);
        assert(ledger@ =~= goal.0);
    }
    Ok(())
}

/// Law: a vote can only succeed with the recorded payer — whenever vote
/// returns success, the proposal exists and the supplied payer equals the
/// payer stored on it.
pub proof fn lemma_vote_needs_recorded_payer(
    l: LedgerView,
    signed: Set<Seq<u8>>,
    proposal: Seq<u8>,
    voter: Seq<u8>,
    payer: Seq<u8>,
    balance: u64,
    choice: u8,
)
    ensures
        vote_spec(l, signed, proposal, voter, payer, balance, choice).1 is Ok ==> l.proposals.contains_key(
            proposal,
        ) && payer == l.proposals[proposal].payer,
{
}

/// Law: vote is append-only — whatever its outcome, it touches no proposal
/// and never rewrites or removes a vote already in the store. Together with
/// the refusal of an occupied address this gives each record exactly one
/// transition: absent to present.
pub proof fn lemma_vote_append_only(
    l: LedgerView,
    signed: Set<Seq<u8>>,
    proposal: Seq<u8>,
    voter: Seq<u8>,
    payer: Seq<u8>,
    balance: u64,
    choice: u8,
)
    ensures
        ({
            let l1 = vote_spec(l, signed, proposal, voter, payer, balance, choice).0;
            l1.program_id == l.program_id && l1.proposals == l.proposals && forall|a: Seq<u8>|
                l.votes.contains_key(a) ==> l1.votes.contains_key(a) && l1.votes[a] == l.votes[a]
        }),
{
}

/// Law: with the ambient conditions in order — the proposal exists, the
/// vote address derives, voter and payer signed, no prior vote at that
/// address, sufficient funds — a vote succeeds exactly when the supplied
/// payer equals the payer recorded on the proposal, and any mismatch is
/// refused as `InvalidPayer` with the store unchanged.
pub proof fn lemma_vote_payer_rule(
    l: LedgerView,
    signed: Set<Seq<u8>>,
    proposal: Seq<u8>,
    voter: Seq<u8>,
    payer: Seq<u8>,
    balance: u64,
    choice: u8,
)
    requires
        l.proposals.contains_key(proposal),
        vote_address(l.program_id, proposal, voter) is Some,
        signed.contains(voter),
        signed.contains(payer),
        vote_address(l.program_id, proposal, voter) matches Some((addr, bump))
            ==> !l.votes.contains_key(addr),
        balance as nat >= vote_space(),
    ensures
        (vote_spec(l, signed, proposal, voter, payer, balance, choice).1 is Ok) <==> payer
            == l.proposals[proposal].payer,
        payer != l.proposals[proposal].payer ==> vote_spec(
            l,
            signed,
            proposal,
            voter,
            payer,
            balance,
            choice,
        ) == (l, Err::<(), ErrorCode>(ErrorCode::InvalidPayer)),
{
}

/// Law: the same voter voting twice on the same proposal fails the second
/// time with `DuplicateRecord`, whatever choice and balance the second
/// attempt carries, provided its signatures are in order and it names the
/// recorded payer; and the store, including the first vote's choice, is
/// unchanged.
pub proof fn lemma_vote_twice(
    l0: LedgerView,
    signed1: Set<Seq<u8>>,
    payer1: Seq<u8>,
    balance1: u64,
    choice1: u8,
    signed2: Set<Seq<u8>>,
    payer2: Seq<u8>,
    balance2: u64,
    choice2: u8,
    proposal: Seq<u8>,
    voter: Seq<u8>,
)
    requires
        vote_spec(l0, signed1, proposal, voter, payer1, balance1, choice1).1 is Ok,
        signed2.contains(voter),
        signed2.contains(payer2),
        payer2 == l0.proposals[proposal].payer,
    ensures
        ({
            let l1 = vote_spec(l0, signed1, proposal, voter, payer1, balance1, choice1).0;
            let (l2, r2) = vote_spec(l1, signed2, proposal, voter, payer2, balance2, choice2);
            vote_address(l0.program_id, proposal, voter) matches Some((addr, bump)) && r2
                == Err::<(), ErrorCode>(ErrorCode::DuplicateRecord) && l2 == l1 && l1.votes[addr]
                == (VoteView { bump, voter, proposal_id: proposal, choice: choice1 })
        }),
{
}

} // verus!
