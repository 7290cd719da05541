use vstd::prelude::*;

verus! {

use crate::bytes::bytes32_eq;
use crate::errors::ErrorCode;
use crate::states::proposal::Proposal;
use crate::states::proposal::ProposalView;
use crate::states::vote::Vote;
use crate::states::vote::VoteView;

/// The keyed store as the contracts speak of it: the program's namespace and
/// one map per record type, keyed by derived address.
#[verifier::ext_equal]
pub ghost struct LedgerView {
    pub program_id: Seq<u8>,
    pub proposals: Map<Seq<u8>, ProposalView>,
    pub votes: Map<Seq<u8>, VoteView>,
}

/// The map denoted by a sequence of key-value entries; a later entry for the
/// same key would win, and the store keeps its keys distinct.
pub open spec fn assoc_map<V>(s: Seq<(Seq<u8>, V)>) -> Map<Seq<u8>, V>
    decreases s.len(),
{
    if s.len() == 0 {
        Map::empty()
    } else {
        assoc_map(s.drop_last()).insert(s.last().0, s.last().1)
    }
}

/// No two entries of the sequence share a key.
pub open spec fn distinct_keys<V>(s: Seq<(Seq<u8>, V)>) -> bool {
    forall|i: int, j: int| 0 <= i < j < s.len() ==> s[i].0 != s[j].0
}

/// A key lies in the denoted map exactly when some entry carries it.
pub proof fn lemma_assoc_map_domain<V>(s: Seq<(Seq<u8>, V)>, k: Seq<u8>)
    ensures
        assoc_map(s).contains_key(k) <==> exists|i: int| 0 <= i < s.len() && s[i].0 == k,
    decreases s.len(),
{
    if s.len() > 0 {
        lemma_assoc_map_domain(s.drop_last(), k);
        assert(s.last() == s[s.len() - 1]);
        if assoc_map(s).contains_key(k) {
            if k == s.last().0 {
                assert(s[s.len() - 1].0 == k);
            } else {
                let i = choose|i: int| 0 <= i < s.drop_last().len() && s.drop_last()[i].0 == k;
                assert(s[i].0 == k);
            }
        }
        if exists|i: int| 0 <= i < s.len() && s[i].0 == k {
            let i = choose|i: int| 0 <= i < s.len() && s[i].0 == k;
            if i < s.len() - 1 {
                assert(s.drop_last()[i].0 == k);
            }
            assert(assoc_map(s).contains_key(k));
        }
    }
}

/// With distinct keys, the denoted map sends each entry's key to that
/// entry's value.
pub proof fn lemma_assoc_map_index<V>(s: Seq<(Seq<u8>, V)>, i: int)
    requires
        distinct_keys(s),
        0 <= i < s.len(),
    ensures
        assoc_map(s).contains_key(s[i].0),
        assoc_map(s)[s[i].0] == s[i].1,
    decreases s.len(),
{
    assert(s.last() == s[s.len() - 1]);
    if i < s.len() - 1 {
        assert(distinct_keys(s.drop_last())) by {
            assert(forall|m: int, n: int|
                0 <= m < n < s.drop_last().len() ==> s.drop_last()[m] == s[m]
                    && s.drop_last()[n] == s[n]);
        }
        lemma_assoc_map_index(s.drop_last(), i);
        assert(s.drop_last()[i] == s[i]);
        assert(s[i].0 != s[s.len() - 1].0);
    }
}

struct StoredProposal {
    addr: [u8; 32],
    rec: Proposal,
}

struct StoredVote {
    addr: [u8; 32],
    rec: Vote,
}

/// The shared, append-only store both handlers run against. It supplies the
/// one primitive the design needs — create a record at an address if that
/// address is still free — plus address lookup; records are never replaced
/// or removed. Its view is a [`LedgerView`].
pub struct Ledger {
    program_id: [u8; 32],
    proposals: Vec<StoredProposal>,
    votes: Vec<StoredVote>,
}

impl Ledger {
    spec fn proposal_entries(&self) -> Seq<(Seq<u8>, ProposalView)> {
        self.proposals@.map_values(|sp: StoredProposal| (sp.addr@, sp.rec@))
    }

    spec fn vote_entries(&self) -> Seq<(Seq<u8>, VoteView)> {
        self.votes@.map_values(|sv: StoredVote| (sv.addr@, sv.rec@))
    }

    #[verifier::type_invariant]
    spec fn wf(&self) -> bool {
        distinct_keys(self.proposal_entries()) && distinct_keys(self.vote_entries())
    }
}

impl View for Ledger {
    type V = LedgerView;

    closed spec fn view(&self) -> LedgerView {
        LedgerView {
            program_id: self.program_id@,
            proposals: assoc_map(self.proposal_entries()),
            votes: assoc_map(self.vote_entries()),
        }
    }
}

impl Ledger {
    /// An empty store for the program identified by `program_id`.
    pub fn new(program_id: [u8; 32]) -> (l: Ledger)
        ensures
            l@ == (LedgerView {
                program_id: program_id@,
                proposals: Map::<Seq<u8>, ProposalView>::empty(),
                votes: Map::<Seq<u8>, VoteView>::empty(),
            }),
    {
        let l = Ledger { program_id, proposals: Vec::new(), votes: Vec::new() };
        proof {
            assert(l.proposal_entries() =~= Seq::<(Seq<u8>, ProposalView)>::empty());
            assert(l.vote_entries() =~= Seq::<(Seq<u8>, VoteView)>::empty());
        }
        l
    }

    /// The identity of the program whose namespace this store keeps.
    pub fn program_id(&self) -> (r: [u8; 32])
        ensures
            r@ == self@.program_id,
    {
        self.program_id
    }

    /// Locates the proposal record stored at `addr`, if any.
    pub fn get_proposal(&self, addr: &[u8; 32]) -> (r: Option<&Proposal>)
        ensures
            match r {
                Some(p) => self@.proposals.contains_key(addr@) && p@ == self@.proposals[addr@],
                None => !self@.proposals.contains_key(addr@),
            },
    {
        proof {
            use_type_invariant(&*self);
        }
        let mut i: usize = 0;
        while i < self.proposals.len()
            invariant
                0 <= i <= self.proposals@.len(),
                forall|j: int| 0 <= j < i ==> self.proposals@[j].addr@ != addr@,
                distinct_keys(self.proposal_entries()),
            decreases self.proposals@.len() - i,
        {
            if bytes32_eq(&self.proposals[i].addr, addr) {
                proof {
                    assert(self.proposal_entries()[i as int]
                        == (self.proposals@[i as int].addr@, self.proposals@[i as int].rec@));
                    lemma_assoc_map_index(self.proposal_entries(), i as int);
                }
                return Some(&self.proposals[i].rec);
            }
            i += 1;
        }
        proof {
            lemma_assoc_map_domain(self.proposal_entries(), addr@);
            assert forall|j: int|
                0 <= j < self.proposal_entries().len() implies self.proposal_entries()[j].0
                != addr@ by {
                assert(self.proposal_entries()[j]
                    == (self.proposals@[j].addr@, self.proposals@[j].rec@));
            }
        }
        None
    }

    /// Locates the vote record stored at `addr`, if any.
    pub fn get_vote(&self, addr: &[u8; 32]) -> (r: Option<&Vote>)
        ensures
            match r {
                Some(v) => self@.votes.contains_key(addr@) && v@ == self@.votes[addr@],
                None => !self@.votes.contains_key(addr@),
            },
    {
        proof {
            use_type_invariant(&*self);
        }
        let mut i: usize = 0;
        while i < self.votes.len()
            invariant
                0 <= i <= self.votes@.len(),
                forall|j: int| 0 <= j < i ==> self.votes@[j].addr@ != addr@,
                distinct_keys(self.vote_entries()),
            decreases self.votes@.len() - i,
        {
            if bytes32_eq(&self.votes[i].addr, addr) {
                proof {
                    assert(self.vote_entries()[i as int]
                        == (self.votes@[i as int].addr@, self.votes@[i as int].rec@));
                    lemma_assoc_map_index(self.vote_entries(), i as int);
                }
                return Some(&self.votes[i].rec);
            }
            i += 1;
        }
        proof {
            lemma_assoc_map_domain(self.vote_entries(), addr@);
            assert forall|j: int|
                0 <= j < self.vote_entries().len() implies self.vote_entries()[j].0 != addr@ by {
                assert(self.vote_entries()[j] == (self.votes@[j].addr@, self.votes@[j].rec@));
            }
        }
        None
    }

    /// The storage layer's create-if-absent primitive for proposals: persists
    /// `rec` at `addr` when that address is still free, and refuses the
    /// write — leaving every record untouched — when it is occupied.
    pub fn put_proposal_if_absent(&mut self, addr: [u8; 32], rec: Proposal) -> (r: Result<
        (),
        ErrorCode,
    >)
        ensures
            r is Ok <==> !old(self)@.proposals.contains_key(addr@),
            r is Ok ==> final(self)@ == (LedgerView {
                proposals: old(self)@.proposals.insert(addr@, rec@),
                ..old(self)@
            }),
            r is Err ==> final(self)@ == old(self)@ && r == Err::<(), ErrorCode>(
                ErrorCode::DuplicateRecord,
            ),
    {
        proof {
            use_type_invariant(&*self);
        }
        if self.get_proposal(&addr).is_some() {
            return Err(ErrorCode::DuplicateRecord);
        }
        proof {
            lemma_assoc_map_domain(self.proposal_entries(), addr@);
        }
        let ghost pre = *self;
        let mut moved: Vec<StoredProposal> = Vec::new();
        std::mem::swap(&mut moved, &mut self.proposals);
        proof {
            assert(self.proposal_entries() =~= Seq::<(Seq<u8>, ProposalView)>::empty());
        }
        moved.push(StoredProposal { addr, rec });
        proof {
            assert(moved@.map_values(|sp: StoredProposal| (sp.addr@, sp.rec@))
                =~= pre.proposal_entries().push((addr@, rec@)));
            assert(distinct_keys(pre.proposal_entries().push((addr@, rec@)))) by {
                assert(forall|j: int|
                    0 <= j < pre.proposal_entries().len()
                        ==> (#[trigger] pre.proposal_entries()[j]).0 != addr@);
            }
        }
        std::mem::swap(&mut moved, &mut self.proposals);
        proof {
            assert(self.proposal_entries().drop_last() =~= pre.proposal_entries());
            assert(self@ =~= (LedgerView {
                proposals: pre@.proposals.insert(addr@, rec@),
                ..pre@
            }));
        }
        Ok(())
    }

    /// The storage layer's create-if-absent primitive for votes, with the
    /// same refusal of an occupied address.
    pub fn put_vote_if_absent(&mut self, addr: [u8; 32], rec: Vote) -> (r: Result<(), ErrorCode>)
        ensures
            r is Ok <==> !old(self)@.votes.contains_key(addr@),
            r is Ok ==> final(self)@ == (LedgerView {
                votes: old(self)@.votes.insert(addr@, rec@),
                ..old(self)@
            }),
            r is Err ==> final(self)@ == old(self)@ && r == Err::<(), ErrorCode>(
                ErrorCode::DuplicateRecord,
            ),
    {
        proof {
            use_type_invariant(&*self);
        }
        if self.get_vote(&addr).is_some() {
            return Err(ErrorCode::DuplicateRecord);
        }
        proof {
            lemma_assoc_map_domain(self.vote_entries(), addr@);
        }
        let ghost pre = *self;
        let mut moved: Vec<StoredVote> = Vec::new();
        std::mem::swap(&mut moved, &mut self.votes);
        proof {
            assert(self.vote_entries() =~= Seq::<(Seq<u8>, VoteView)>::empty());
        }
        moved.push(StoredVote { addr, rec });
        proof {
            assert(moved@.map_values(|sv: StoredVote| (sv.addr@, sv.rec@))
                =~= pre.vote_entries().push((addr@, rec@)));
            assert(distinct_keys(pre.vote_entries().push((addr@, rec@)))) by {
                assert(forall|j: int|
                    0 <= j < pre.vote_entries().len()
                        ==> (#[trigger] pre.vote_entries()[j]).0 != addr@);
            }
        }
        std::mem::swap(&mut moved, &mut self.votes);
        proof {
            assert(self.vote_entries().drop_last() =~= pre.vote_entries());
            assert(self@ =~= (LedgerView { votes: pre@.votes.insert(addr@, rec@), ..pre@ }));
        }
        Ok(())
    }
}

} // verus!
