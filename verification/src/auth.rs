use vstd::prelude::*;

verus! {

use crate::bytes::bytes32_eq;

/// The claims the host runtime vouches for on one transaction: the set of
/// identities whose cryptographic signatures it verified at the boundary.
/// The handlers consult this object explicitly instead of an ambient
/// context; its view is the set of signing identities.
pub struct Signers {
    keys: Vec<[u8; 32]>,
}

impl View for Signers {
    type V = Set<Seq<u8>>;

    closed spec fn view(&self) -> Set<Seq<u8>> {
        Set::new(|k: Seq<u8>| exists|i: int| 0 <= i < self.keys@.len() && self.keys@[i]@ == k)
    }
}

impl Signers {
    /// A transaction nobody has signed.
    pub fn new() -> (s: Signers)
        ensures
            s@ == Set::<Seq<u8>>::empty(),
    {
        let s = Signers { keys: Vec::new() };
        proof {
            assert(s@ =~= Set::<Seq<u8>>::empty());
        }
        s
    }

    /// Records that `key` signed the transaction.
    pub fn add(&mut self, key: [u8; 32])
        ensures
            final(self)@ == old(self)@.insert(key@),
    {
        self.keys.push(key);
        proof {
            let oldk = old(self).keys@;
            let newk = self.keys@;
            assert forall|k: Seq<u8>| self@.contains(k) implies old(self)@.insert(
                key@,
            ).contains(k) by {
                let i = choose|i: int| 0 <= i < newk.len() && newk[i]@ == k;
                if i < oldk.len() {
                    assert(oldk[i]@ == k);
                } else {
                    assert(newk[i] == key);
                }
            }
            assert forall|k: Seq<u8>| old(self)@.insert(key@).contains(k) implies self@.contains(
                k,
            ) by {
                if k == key@ {
                    assert(newk[oldk.len() as int]@ == k);
                } else {
                    let i = choose|i: int| 0 <= i < oldk.len() && oldk[i]@ == k;
                    assert(newk[i]@ == k);
                }
            }
            assert(self@ =~= old(self)@.insert(key@));
        }
    }

    /// Whether `key` signed the transaction.
    pub fn is_signer(&self, key: &[u8; 32]) -> (r: bool)
        ensures
            r == self@.contains(key@),
    {
        let mut i: usize = 0;
        while i < self.keys.len()
            invariant
                0 <= i <= self.keys@.len(),
                forall|j: int| 0 <= j < i ==> self.keys@[j]@ != key@,
            decreases self.keys@.len() - i,
        {
            if bytes32_eq(&self.keys[i], key) {
                return true;
            }
            i += 1;
        }
        false
    }
}

} // verus!
