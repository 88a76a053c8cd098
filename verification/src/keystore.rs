//! The node's keystore, modelled as the set of authority keys the node
//! controls: each entry pairs a public key with the 32-byte seed it was
//! derived from. The protocol asks it two things — whether a given public
//! key is locally controlled, and for a signature under such a key.

use vstd::prelude::*;

use crate::crypto::{sr25519_public_from_seed, sr25519_public_of, sr25519_sign, sr25519_verifies};

verus! {

struct KeyEntry {
    public: Vec<u8>,
    seed: Vec<u8>,
}

/// The keys this node controls.
pub struct Keystore {
    entries: Vec<KeyEntry>,
}

impl Keystore {
    /// Every entry's public key is the one derived from its seed.
    pub closed spec fn well_formed(&self) -> bool {
        forall|i: int| 0 <= i < self.entries@.len() ==> {
            &&& (#[trigger] self.entries@[i]).seed@.len() == 32
            &&& self.entries@[i].public@ == sr25519_public_of(self.entries@[i].seed@)
        }
    }

    /// Whether the keystore holds the key with the given public half.
    pub closed spec fn spec_has_key(&self, public: Seq<u8>) -> bool {
        exists|i: int| 0 <= i < self.entries@.len() && (#[trigger] self.entries@[i]).public@ == public
    }

    /// An empty keystore.
    pub fn new() -> (r: Keystore)
        ensures
            r.well_formed(),
            forall|pk: Seq<u8>| !r.spec_has_key(pk),
    {
        Keystore { entries: Vec::new() }
    }

    /// Derive a key pair from a 32-byte seed, keep it, and return the public
    /// key. Keys already held stay held.
    pub fn insert_seed(&mut self, seed: Vec<u8>) -> (public: Vec<u8>)
        requires
            old(self).well_formed(),
            seed@.len() == 32,
        ensures
            final(self).well_formed(),
            public@ == sr25519_public_of(seed@),
            final(self).spec_has_key(public@),
            forall|pk: Seq<u8>| old(self).spec_has_key(pk) ==> final(self).spec_has_key(pk),
            forall|pk: Seq<u8>|
                final(self).spec_has_key(pk) ==> old(self).spec_has_key(pk) || pk
                    == sr25519_public_of(seed@),
    {
        let public = sr25519_public_from_seed(&seed);
        let entry_public = public.clone();
        proof {
            assert(entry_public@ =~= public@);
        }
        self.entries.push(KeyEntry { public: entry_public, seed });
        proof {
            let n = self.entries@.len() - 1;
            assert(self.entries@[n].public@ == sr25519_public_of(self.entries@[n].seed@));
            assert forall|pk: Seq<u8>| old(self).spec_has_key(pk) implies self.spec_has_key(pk) by {
                let i = choose|i: int|
                    0 <= i < old(self).entries@.len() && (#[trigger] old(self).entries@[i]).public@
                        == pk;
                assert(self.entries@[i].public@ == pk);
            }
        }
        public
    }

    /// Whether this keystore holds the key with the given public half.
    pub fn has_keys(&self, public: &Vec<u8>) -> (r: bool)
        ensures
            r == self.spec_has_key(public@),
    {
        let n = self.entries.len();
        for i in 0..n
            invariant
                n == self.entries@.len(),
                forall|j: int| 0 <= j < i ==> (#[trigger] self.entries@[j]).public@ != public@,
        {
            if crate::codec::bytes_eq(&self.entries[i].public, public) {
                return true;
            }
        }
        false
    }

    /// Sign a message with the key whose public half is given.
    ///
    /// Returns `None` exactly when the keystore does not hold that key; a
    /// returned signature is a valid signature on the message under the
    /// given public key.
    pub fn sign_with(&self, public: &Vec<u8>, message: &Vec<u8>) -> (r: Option<Vec<u8>>)
        requires
            self.well_formed(),
        ensures
            match r {
                Option::Some(sig) => {
                    &&& self.spec_has_key(public@)
                    &&& sig@.len() == 64
                    &&& sr25519_verifies(sig@, message@, public@)
                },
                Option::None => !self.spec_has_key(public@),
            },
    {
        let n = self.entries.len();
        for i in 0..n
            invariant
                self.well_formed(),
                n == self.entries@.len(),
                forall|j: int| 0 <= j < i ==> (#[trigger] self.entries@[j]).public@ != public@,
        {
            if crate::codec::bytes_eq(&self.entries[i].public, public) {
                let sig = sr25519_sign(&self.entries[i].seed, message);
                return Some(sig);
            }
        }
        None
    }
}

} // verus!
