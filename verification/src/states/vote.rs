use vstd::prelude::*;

verus! {

/// Mathematical model of a vote record, with the identities as byte
/// sequences.
#[verifier::ext_equal]
pub ghost struct VoteView {
    pub bump: u8,
    pub voter: Seq<u8>,
    pub proposal_id: Seq<u8>,
    pub choice: u8,
}

/// One voter's choice on one proposal. Created exactly once, at the address
/// derived from `(proposal address, voter)`; never mutated or deleted.
///
/// Logical storage layout: `[bump:1][voter:32][proposal_id:32][choice:1]`,
/// behind the fixed 8-byte header that the host runtime prepends.
pub struct Vote {
    /// Disambiguation nonce produced by the address derivation.
    pub bump: u8,
    /// Identity casting the vote.
    pub voter: [u8; 32],
    /// Address of the proposal being voted on.
    pub proposal_id: [u8; 32],
    /// Raw choice byte; its meaning is owned by the caller, not validated
    /// here.
    pub choice: u8,
}

impl View for Vote {
    type V = VoteView;

    open spec fn view(&self) -> VoteView {
        VoteView {
            bump: self.bump,
            voter: self.voter@,
            proposal_id: self.proposal_id@,
            choice: self.choice,
        }
    }
}

} // verus!
