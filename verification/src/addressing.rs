use vstd::prelude::*;

verus! {

/// What the host's derivation returns for a program id and an ordered pair
/// of 32-byte seeds: a derived 32-byte address together with the bump nonce
/// that made the derivation land on a valid (non-signing) address, or
/// nothing when no bump works. The derivation — a SHA-256-based search over
/// bump nonces — is a pure function of these three inputs, so it carries a
/// name here rather than a transcription of the algorithm behind it.
pub uninterp spec fn derived_address(
    program_id: Seq<u8>,
    seed_a: Seq<u8>,
    seed_b: Seq<u8>,
) -> Option<(Seq<u8>, u8)>;

/// Address family of proposal records: the seeds are the author identity and
/// the 32-byte content hash, in that order.
pub open spec fn proposal_address(
    program_id: Seq<u8>,
    author: Seq<u8>,
    hash: Seq<u8>,
) -> Option<(Seq<u8>, u8)> {
    derived_address(program_id, author, hash)
}

/// Address family of vote records: the seeds are the proposal's own address
/// and the voter identity, in that order.
pub open spec fn vote_address(
    program_id: Seq<u8>,
    proposal: Seq<u8>,
    voter: Seq<u8>,
) -> Option<(Seq<u8>, u8)> {
    derived_address(program_id, proposal, voter)
}

/// Relies on `solana_pubkey::Pubkey::try_find_program_address` (the `Pubkey`
/// that `anchor_lang` re-exports in its prelude): starting from 255 and
/// counting down, it returns the first bump for which SHA-256 over the
/// seeds, the bump, the program id and a fixed marker yields an address off
/// the ed25519 curve, and `None` when no bump works. The search reads
/// nothing but its arguments, so the result is deterministic.
#[verifier::external_body]
fn try_derive(program_id: &[u8; 32], seed_a: &[u8; 32], seed_b: &[u8; 32]) -> (r: Option<(
    [u8; 32],
    u8,
)>)
    ensures
        r matches Some(ab) ==> derived_address(program_id@, seed_a@, seed_b@) == Some((ab.0@, ab.1)),
        r is None ==> derived_address(program_id@, seed_a@, seed_b@) is None,
{
    let pid = solana_pubkey::Pubkey::new_from_array(*program_id);
    match solana_pubkey::Pubkey::try_find_program_address(&[seed_a.as_slice(), seed_b.as_slice()], &pid) {
        Some((address, bump)) => Some((address.to_bytes(), bump)),
        None => None,
    }
}

/// The storage address of the proposal for `(author, hash)` within the
/// program's namespace, with its bump nonce. Re-deriving with the same
/// arguments yields the same pair: the result is pinned to a function of
/// the arguments alone.
pub fn derive_proposal_address(program_id: &[u8; 32], author: &[u8; 32], hash: &[u8; 32]) -> (r:
    Option<([u8; 32], u8)>)
    ensures
        r matches Some(ab) ==> proposal_address(program_id@, author@, hash@) == Some((ab.0@, ab.1)),
        r is None ==> proposal_address(program_id@, author@, hash@) is None,
{
    try_derive(program_id, author, hash)
}

/// The storage address of the vote by `voter` on the proposal stored at
/// `proposal`, with its bump nonce. Deterministic in the same way as
/// [`derive_proposal_address`].
pub fn derive_vote_address(program_id: &[u8; 32], proposal: &[u8; 32], voter: &[u8; 32]) -> (r:
    Option<([u8; 32], u8)>)
    ensures
        r matches Some(ab) ==> vote_address(program_id@, proposal@, voter@) == Some((ab.0@, ab.1)),
        r is None ==> vote_address(program_id@, proposal@, voter@) is None,
{
    try_derive(program_id, proposal, voter)
}

} // verus!
