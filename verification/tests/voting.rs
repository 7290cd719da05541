use signedvoting::addressing::derive_proposal_address;
use signedvoting::addressing::derive_vote_address;
use signedvoting::create_proposal;
use signedvoting::create_proposal_handler;
use signedvoting::vote;
use signedvoting::CreateProposal;
use signedvoting::ErrorCode;
use signedvoting::Ledger;
use signedvoting::Signers;
use signedvoting::VoteInstruction;

const PROGRAM_ID: [u8; 32] = [7u8; 32];
const AUTHOR: [u8; 32] = [0xA1u8; 32];
const PAYER: [u8; 32] = [0xC3u8; 32];
const HASH: [u8; 32] = [0xAAu8; 32];
const VOTER_1: [u8; 32] = [0x11u8; 32];
const VOTER_2: [u8; 32] = [0x22u8; 32];
const OTHER_PAYER: [u8; 32] = [0xD4u8; 32];
const URI: &str = "ipfs://Qm123";

fn signers_of(keys: &[[u8; 32]]) -> Signers {
    let mut s = Signers::new();
    for k in keys {
        s.add(*k);
    }
    s
}

fn ledger_with_proposal() -> (Ledger, [u8; 32]) {
    let mut ledger = Ledger::new(PROGRAM_ID);
    let signers = signers_of(&[AUTHOR, PAYER]);
    let ctx = CreateProposal { author: AUTHOR, payer: PAYER, payer_balance: 1_000_000 };
    let r = create_proposal(&mut ledger, &signers, &ctx, URI.to_string(), HASH);
    assert_eq!(r, Ok(()));
    let (addr, _bump) = derive_proposal_address(&PROGRAM_ID, &AUTHOR, &HASH).unwrap();
    (ledger, addr)
}

#[test]
fn create_proposal_writes_all_fields() {
    let mut ledger = Ledger::new(PROGRAM_ID);
    let signers = signers_of(&[AUTHOR, PAYER]);
    let ctx = CreateProposal { author: AUTHOR, payer: PAYER, payer_balance: 1_000_000 };
    let r = create_proposal_handler(&mut ledger, &signers, &ctx, URI.to_string(), HASH);
    assert_eq!(r, Ok(()));

    let (addr, bump) = derive_proposal_address(&PROGRAM_ID, &AUTHOR, &HASH).unwrap();
    let p = ledger.get_proposal(&addr).expect("created proposal must be readable");
    assert_eq!(p.author, AUTHOR);
    assert_eq!(p.payer, PAYER);
    assert_eq!(p.uri, URI);
    assert_eq!(p.hash, HASH);
    assert_eq!(p.bump, bump);
}

#[test]
fn duplicate_proposal_fails_and_first_record_is_kept() {
    let (mut ledger, addr) = ledger_with_proposal();
    let signers = signers_of(&[AUTHOR, OTHER_PAYER]);
    let ctx = CreateProposal { author: AUTHOR, payer: OTHER_PAYER, payer_balance: 1_000_000 };
    let r = create_proposal(&mut ledger, &signers, &ctx, "ipfs://QmOther".to_string(), HASH);
    assert_eq!(r, Err(ErrorCode::DuplicateRecord));

    let p = ledger.get_proposal(&addr).expect("first record must survive");
    assert_eq!(p.author, AUTHOR);
    assert_eq!(p.payer, PAYER);
    assert_eq!(p.uri, URI);
    assert_eq!(p.hash, HASH);
}

#[test]
fn create_proposal_requires_author_signature() {
    let mut ledger = Ledger::new(PROGRAM_ID);
    let signers = signers_of(&[PAYER]);
    let ctx = CreateProposal { author: AUTHOR, payer: PAYER, payer_balance: 1_000_000 };
    let r = create_proposal(&mut ledger, &signers, &ctx, URI.to_string(), HASH);
    assert_eq!(r, Err(ErrorCode::AuthorizationFailure));
    let (addr, _) = derive_proposal_address(&PROGRAM_ID, &AUTHOR, &HASH).unwrap();
    assert!(ledger.get_proposal(&addr).is_none());
}

#[test]
fn create_proposal_requires_payer_signature() {
    let mut ledger = Ledger::new(PROGRAM_ID);
    let signers = signers_of(&[AUTHOR]);
    let ctx = CreateProposal { author: AUTHOR, payer: PAYER, payer_balance: 1_000_000 };
    let r = create_proposal(&mut ledger, &signers, &ctx, URI.to_string(), HASH);
    assert_eq!(r, Err(ErrorCode::AuthorizationFailure));
}

#[test]
fn create_proposal_charges_exactly_the_record_space() {
    // A proposal record costs 8 + 1 + 32 + 32 + 4 + uri_len + 32 units;
    // URI has 12 characters, so 121 in all.
    let signers = signers_of(&[AUTHOR, PAYER]);

    let mut ledger = Ledger::new(PROGRAM_ID);
    let poor = CreateProposal { author: AUTHOR, payer: PAYER, payer_balance: 120 };
    let r = create_proposal(&mut ledger, &signers, &poor, URI.to_string(), HASH);
    assert_eq!(r, Err(ErrorCode::InsufficientFunds));
    let (addr, _) = derive_proposal_address(&PROGRAM_ID, &AUTHOR, &HASH).unwrap();
    assert!(ledger.get_proposal(&addr).is_none());

    let exact = CreateProposal { author: AUTHOR, payer: PAYER, payer_balance: 121 };
    let r = create_proposal(&mut ledger, &signers, &exact, URI.to_string(), HASH);
    assert_eq!(r, Ok(()));
}

#[test]
fn vote_with_matching_payer_succeeds() {
    let (mut ledger, proposal_addr) = ledger_with_proposal();
    let signers = signers_of(&[VOTER_1, PAYER]);
    let ctx = VoteInstruction {
        proposal: proposal_addr,
        voter: VOTER_1,
        payer: PAYER,
        payer_balance: 1_000,
    };
    let r = vote(&mut ledger, &signers, &ctx, 1);
    assert_eq!(r, Ok(()));

    let (vote_addr, bump) = derive_vote_address(&PROGRAM_ID, &proposal_addr, &VOTER_1).unwrap();
    let v = ledger.get_vote(&vote_addr).expect("cast vote must be readable");
    assert_eq!(v.voter, VOTER_1);
    assert_eq!(v.proposal_id, proposal_addr);
    assert_eq!(v.choice, 1);
    assert_eq!(v.bump, bump);
}

#[test]
fn duplicate_vote_fails_and_first_choice_is_kept() {
    let (mut ledger, proposal_addr) = ledger_with_proposal();
    let signers = signers_of(&[VOTER_1, PAYER]);
    let ctx = VoteInstruction {
        proposal: proposal_addr,
        voter: VOTER_1,
        payer: PAYER,
        payer_balance: 1_000,
    };
    assert_eq!(vote(&mut ledger, &signers, &ctx, 1), Ok(()));
    assert_eq!(vote(&mut ledger, &signers, &ctx, 2), Err(ErrorCode::DuplicateRecord));

    let (vote_addr, _) = derive_vote_address(&PROGRAM_ID, &proposal_addr, &VOTER_1).unwrap();
    let v = ledger.get_vote(&vote_addr).expect("first vote must survive");
    assert_eq!(v.choice, 1);
}

#[test]
fn vote_with_wrong_payer_fails_with_invalid_payer() {
    let (mut ledger, proposal_addr) = ledger_with_proposal();
    let signers = signers_of(&[VOTER_2, OTHER_PAYER]);
    let ctx = VoteInstruction {
        proposal: proposal_addr,
        voter: VOTER_2,
        payer: OTHER_PAYER,
        payer_balance: 1_000,
    };
    let r = vote(&mut ledger, &signers, &ctx, 1);
    assert_eq!(r, Err(ErrorCode::InvalidPayer));

    let (vote_addr, _) = derive_vote_address(&PROGRAM_ID, &proposal_addr, &VOTER_2).unwrap();
    assert!(ledger.get_vote(&vote_addr).is_none());
}

#[test]
fn vote_requires_voter_signature() {
    let (mut ledger, proposal_addr) = ledger_with_proposal();
    let signers = signers_of(&[PAYER]);
    let ctx = VoteInstruction {
        proposal: proposal_addr,
        voter: VOTER_1,
        payer: PAYER,
        payer_balance: 1_000,
    };
    assert_eq!(vote(&mut ledger, &signers, &ctx, 1), Err(ErrorCode::AuthorizationFailure));
}

#[test]
fn vote_charges_exactly_the_record_space() {
    // A vote record costs 8 + 1 + 32 + 32 + 1 = 74 units.
    let (mut ledger, proposal_addr) = ledger_with_proposal();
    let signers = signers_of(&[VOTER_1, PAYER]);
    let poor = VoteInstruction {
        proposal: proposal_addr,
        voter: VOTER_1,
        payer: PAYER,
        payer_balance: 73,
    };
    assert_eq!(vote(&mut ledger, &signers, &poor, 1), Err(ErrorCode::InsufficientFunds));

    let exact = VoteInstruction {
        proposal: proposal_addr,
        voter: VOTER_1,
        payer: PAYER,
        payer_balance: 74,
    };
    assert_eq!(vote(&mut ledger, &signers, &exact, 1), Ok(()));
}

#[test]
fn vote_on_missing_proposal_fails() {
    let mut ledger = Ledger::new(PROGRAM_ID);
    let signers = signers_of(&[VOTER_1, PAYER]);
    let ctx = VoteInstruction {
        proposal: [9u8; 32],
        voter: VOTER_1,
        payer: PAYER,
        payer_balance: 1_000,
    };
    assert_eq!(vote(&mut ledger, &signers, &ctx, 1), Err(ErrorCode::ProposalNotFound));
}

#[test]
fn derivation_is_deterministic_and_separates_seed_tuples() {
    let first = derive_proposal_address(&PROGRAM_ID, &AUTHOR, &HASH).unwrap();
    let second = derive_proposal_address(&PROGRAM_ID, &AUTHOR, &HASH).unwrap();
    assert_eq!(first, second);

    let other_hash = [0xABu8; 32];
    let third = derive_proposal_address(&PROGRAM_ID, &AUTHOR, &other_hash).unwrap();
    assert_ne!(first.0, third.0);

    let v1 = derive_vote_address(&PROGRAM_ID, &first.0, &VOTER_1).unwrap();
    let v1_again = derive_vote_address(&PROGRAM_ID, &first.0, &VOTER_1).unwrap();
    assert_eq!(v1, v1_again);
    let v2 = derive_vote_address(&PROGRAM_ID, &first.0, &VOTER_2).unwrap();
    assert_ne!(v1.0, v2.0);
}

#[test]
fn proposals_with_different_hashes_coexist() {
    let (mut ledger, first_addr) = ledger_with_proposal();
    let signers = signers_of(&[AUTHOR, PAYER]);
    let other_hash = [0xABu8; 32];
    let ctx = CreateProposal { author: AUTHOR, payer: PAYER, payer_balance: 1_000_000 };
    let r = create_proposal(&mut ledger, &signers, &ctx, "ipfs://QmNext".to_string(), other_hash);
    assert_eq!(r, Ok(()));

    let (second_addr, _) = derive_proposal_address(&PROGRAM_ID, &AUTHOR, &other_hash).unwrap();
    assert_ne!(first_addr, second_addr);
    assert_eq!(ledger.get_proposal(&first_addr).unwrap().uri, URI);
    assert_eq!(ledger.get_proposal(&second_addr).unwrap().uri, "ipfs://QmNext");
}
