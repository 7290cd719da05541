use vstd::prelude::*;

verus! {

use crate::addressing::derive_proposal_address;
use crate::addressing::proposal_address;
use crate::auth::Signers;
use crate::errors::ErrorCode;
use crate::ledger::Ledger;
use crate::ledger::LedgerView;
use crate::states::proposal::Proposal;
use crate::states::proposal::ProposalView;

/// The accounts a create-proposal transaction names, reduced to the plain
/// values the handler reads.
pub struct CreateProposal {
    /// The proposal's creator; must have signed the transaction.
    pub author: [u8; 32],
    /// The identity recorded on the proposal as authorized to fund related
    /// records; must have signed, and funds the new record.
    pub payer: [u8; 32],
    /// The balance available on the payer's account, in the host's storage
    /// cost unit.
    pub payer_balance: u64,
}

/// Storage size, in bytes, of a proposal record holding a uri of length
/// `uri_len`: the host's 8-byte header, then the bump, the author, the
/// payer, the length-prefixed uri and the content hash.
pub open spec fn proposal_space(uri_len: nat) -> nat {
    8 + 1 + 32 + 32 + 4 + uri_len + 32
}

/// The whole meaning of create-proposal: one function from the old store
/// and the transaction's inputs to the new store and the caller-visible
/// result. Refusals, in order: no derivable address, a missing signature,
/// an occupied address, missing funds; every refusal leaves the store
/// unchanged.
pub open spec fn create_proposal_spec(
    l: LedgerView,
    signed: Set<Seq<u8>>,
    author: Seq<u8>,
    payer: Seq<u8>,
    payer_balance: u64,
    uri: Seq<char>,
    hash: Seq<u8>,
) -> (LedgerView, Result<(), ErrorCode>) {
    match proposal_address(l.program_id, author, hash) {
        None => (l, Err(ErrorCode::DerivationFailure)),
        Some((addr, bump)) => if !(signed.contains(author) && signed.contains(payer)) {
            (l, Err(ErrorCode::AuthorizationFailure))
        } else if l.proposals.contains_key(addr) {
            (l, Err(ErrorCode::DuplicateRecord))
        } else if (payer_balance as nat) < proposal_space(uri.len()) {
            (l, Err(ErrorCode::InsufficientFunds))
        } else {
            (
                LedgerView {
                    proposals: l.proposals.insert(
                        addr,
                        ProposalView { bump, author, payer, uri, hash },
                    ),
                    ..l
                },
                Ok(()),
            )
        },
    }
}

/// Creates the proposal record for `(author, hash)` at its derived address,
/// writing the author, the payer, the uri, the hash and the derivation
/// bump. Succeeds exactly when the address derivation succeeds, author and
/// payer both signed, the address is still free, and the payer can fund the
/// record; the store changes only on success.
pub fn create_proposal_handler(
    ledger: &mut Ledger,
    signers: &Signers,
    ctx: &CreateProposal,
    uri: String,
    hash: [u8; 32],
) -> (r: Result<(), ErrorCode>)
    ensures
        (final(ledger)@, r) == create_proposal_spec(
            old(ledger)@,
            signers@,
            ctx.author@,
            ctx.payer@,
            ctx.payer_balance,
            uri@,
            hash@,
        ),
{
    let program_id = ledger.program_id();
    let derived = derive_proposal_address(&program_id, &ctx.author, &hash);
    let (addr, bump) = match derived {
        None => {
            return Err(ErrorCode::DerivationFailure);
        },
        Some(ab) => ab,
    };
    if !(signers.is_signer(&ctx.author) && signers.is_signer(&ctx.payer)) {
        return Err(ErrorCode::AuthorizationFailure);
    }
    if ledger.get_proposal(&addr).is_some() {
        return Err(ErrorCode::DuplicateRecord);
    }
    let space: u128 = 8 + 1 + 32 + 32 + 4 + (uri.as_str().unicode_len() as u128) + 32;
    if (ctx.payer_balance as u128) < space {
        return Err(ErrorCode::InsufficientFunds);
    }
    let ghost goal = create_proposal_spec(
        old(ledger)@,
        signers@,
        ctx.author@,
        ctx.payer@,
        ctx.payer_balance,
        uri@,
        hash@,
    );
    let record = Proposal { bump, author: ctx.author, payer: ctx.payer, uri, hash };
    let stored = ledger.put_proposal_if_absent(addr, record);
    proof {
        assert(stored is Ok);
        assert(ledger@ =~= goal.0);
    }
    Ok(())
}

/// Law: creating a proposal twice with identical seeds — the same author,
/// content hash and program namespace — fails the second time with
/// `DuplicateRecord`, whatever payer, balance and uri the second attempt
/// carries, provided its signatures are in order; and the store, including
/// every field of the first record, is unchanged.
pub proof fn lemma_create_proposal_twice(
    l0: LedgerView,
    signed1: Set<Seq<u8>>,
    payer1: Seq<u8>,
    balance1: u64,
    uri1: Seq<char>,
    signed2: Set<Seq<u8>>,
    payer2: Seq<u8>,
    balance2: u64,
    uri2: Seq<char>,
    author: Seq<u8>,
    hash: Seq<u8>,
)
    requires
        create_proposal_spec(l0, signed1, author, payer1, balance1, uri1, hash).1 is Ok,
        signed2.contains(author),
        signed2.contains(payer2),
    ensures
        ({
            let l1 = create_proposal_spec(l0, signed1, author, payer1, balance1, uri1, hash).0;
            let (l2, r2) = create_proposal_spec(l1, signed2, author, payer2, balance2, uri2, hash);
            proposal_address(l0.program_id, author, hash) matches Some((addr, bump)) && r2
                == Err::<(), ErrorCode>(ErrorCode::DuplicateRecord) && l2 == l1
                && l1.proposals[addr] == (ProposalView {
                bump,
                author,
                payer: payer1,
                uri: uri1,
                hash,
            })
        }),
{
}

/// Law: create-proposal is append-only — whatever its outcome, it never
/// rewrites or removes a record already in the store, and it touches no
/// vote. Together with the refusal of an occupied address this gives each
/// record exactly one transition: absent to present.
pub proof fn lemma_create_proposal_append_only(
    l: LedgerView,
    signed: Set<Seq<u8>>,
    author: Seq<u8>,
    payer: Seq<u8>,
    balance: u64,
    uri: Seq<char>,
    hash: Seq<u8>,
)
    ensures
        ({
            let l1 = create_proposal_spec(l, signed, author, payer, balance, uri, hash).0;
            l1.program_id == l.program_id && l1.votes == l.votes && forall|a: Seq<u8>|
                l.proposals.contains_key(a) ==> l1.proposals.contains_key(a) && l1.proposals[a]
                    == l.proposals[a]
        }),
{
}

/// Law: a created proposal, read back from the store at its derived
/// address, reproduces exactly the author, payer, uri, hash and bump
/// supplied at creation.
pub proof fn lemma_create_proposal_round_trip(
    l0: LedgerView,
    signed: Set<Seq<u8>>,
    author: Seq<u8>,
    payer: Seq<u8>,
    balance: u64,
    uri: Seq<char>,
    hash: Seq<u8>,
)
    requires
        create_proposal_spec(l0, signed, author, payer, balance, uri, hash).1 is Ok,
    ensures
        ({
            let l1 = create_proposal_spec(l0, signed, author, payer, balance, uri, hash).0;
            proposal_address(l0.program_id, author, hash) matches Some((addr, bump))
                && l1.proposals.contains_key(addr) && l1.proposals[addr] == (ProposalView {
                bump,
                author,
                payer,
                uri,
                hash,
            })
        }),
{
}

} // verus!
