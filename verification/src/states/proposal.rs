use vstd::prelude::*;

verus! {

/// Mathematical model of a proposal record: the identities and the content
/// hash as byte sequences, the uri as a character sequence.
#[verifier::ext_equal]
pub ghost struct ProposalView {
    pub bump: u8,
    pub author: Seq<u8>,
    pub payer: Seq<u8>,
    pub uri: Seq<char>,
    pub hash: Seq<u8>,
}

/// A single published proposal. Created exactly once, at the address derived
/// from `(author, hash)`; never mutated or deleted afterwards.
///
/// Logical storage layout: `[bump:1][author:32][payer:32][uri:len-prefixed][hash:32]`,
/// behind the fixed 8-byte header that the host runtime prepends.
pub struct Proposal {
    /// Disambiguation nonce produced by the address derivation; stored so the
    /// canonical address can be re-derived and checked without a new search.
    pub bump: u8,
    /// Identity of the creator; immutable once set.
    pub author: [u8; 32],
    /// Identity authorized to fund future records tied to this proposal;
    /// set at creation, immutable.
    pub payer: [u8; 32],
    /// Reference to the off-chain proposal content.
    pub uri: String,
    /// 32-byte content hash of the proposal body; part of the derivation
    /// seeds, hence unique per `(author, hash)` pair.
    pub hash: [u8; 32],
}

impl View for Proposal {
    type V = ProposalView;

    open spec fn view(&self) -> ProposalView {
        ProposalView {
            bump: self.bump,
            author: self.author@,
            payer: self.payer@,
            uri: self.uri@,
            hash: self.hash@,
        }
    }
}

} // verus!
