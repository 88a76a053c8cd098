//! SPIN digest items.
//!
//! Two kinds of digest item carry the protocol's data inside a block header:
//! a pre-runtime item holding the slot number, recorded before sealing, and a
//! seal holding the author's signature over the pre-hash, appended last.
//! Items tagged with another engine's identifier are ignored, never an error.

use vstd::prelude::*;

use crate::codec::{decode_u64, encode_u64, lemma_u64_codec_roundtrip, spec_decode_u64, u64_le_bytes};
use crate::{spec_spin_engine_id, Slot, SPIN_ENGINE_ID};

verus! {

/// One entry of a block header's digest log.
pub enum DigestItem {
    /// Data recorded by the authoring node before runtime execution, tagged
    /// with the consensus engine it belongs to.
    PreRuntime([u8; 4], Vec<u8>),
    /// Data recorded by the runtime for a consensus engine.
    Consensus([u8; 4], Vec<u8>),
    /// A seal: the last item of a sealed header, tagged with the consensus
    /// engine whose signature it carries.
    Seal([u8; 4], Vec<u8>),
    /// Anything else; carried through untouched.
    Other(Vec<u8>),
}

/// The digest log of a block header.
pub struct Digest {
    /// The items, oldest first. The seal, if any, is the last item.
    pub logs: Vec<DigestItem>,
}

/// View-level equality of digest items: same kind, same engine tag, same
/// payload bytes.
pub open spec fn digest_item_matches(a: DigestItem, b: DigestItem) -> bool {
    match (a, b) {
        (DigestItem::PreRuntime(i1, d1), DigestItem::PreRuntime(i2, d2)) => i1@ == i2@ && d1@ == d2@,
        (DigestItem::Consensus(i1, d1), DigestItem::Consensus(i2, d2)) => i1@ == i2@ && d1@ == d2@,
        (DigestItem::Seal(i1, d1), DigestItem::Seal(i2, d2)) => i1@ == i2@ && d1@ == d2@,
        (DigestItem::Other(d1), DigestItem::Other(d2)) => d1@ == d2@,
        _ => false,
    }
}

/// View-level equality of whole digest logs.
pub open spec fn logs_match(a: Seq<DigestItem>, b: Seq<DigestItem>) -> bool {
    a.len() == b.len() && forall|i: int| 0 <= i < a.len() ==> digest_item_matches(#[trigger] a[i], b[i])
}

/// The slot a digest item carries, if it is a SPIN pre-digest: a pre-runtime
/// item tagged with the SPIN engine whose payload decodes as a slot number.
pub open spec fn spec_as_spin_pre_digest(item: DigestItem) -> Option<Slot> {
    match item {
        DigestItem::PreRuntime(id, data) => if id@ == spec_spin_engine_id() {
            spec_decode_u64(data@)
        } else {
            Option::None
        },
        _ => Option::None,
    }
}

/// The signature a digest item carries, if it is a SPIN seal: a seal item
/// tagged with the SPIN engine whose payload holds at least the 64 signature
/// bytes. Trailing payload bytes are ignored.
pub open spec fn spec_as_spin_seal(item: DigestItem) -> Option<Seq<u8>> {
    match item {
        DigestItem::Seal(id, data) => if id@ == spec_spin_engine_id() && data@.len() >= 64 {
            Option::Some(data@.take(64))
        } else {
            Option::None
        },
        _ => Option::None,
    }
}

/// Items equal at view level carry the same pre-digest.
pub proof fn lemma_pre_digest_respects_matches(a: DigestItem, b: DigestItem)
    requires
        digest_item_matches(a, b),
    ensures
        spec_as_spin_pre_digest(a) == spec_as_spin_pre_digest(b),
{
}

/// Items equal at view level carry the same seal.
pub proof fn lemma_seal_respects_matches(a: DigestItem, b: DigestItem)
    requires
        digest_item_matches(a, b),
    ensures
        spec_as_spin_seal(a) == spec_as_spin_seal(b),
{
}

/// Compare two engine tags.
pub fn engine_id_eq(a: &[u8; 4], b: &[u8; 4]) -> (r: bool)
    ensures
        r == (a@ == b@),
{
    let r = a[0] == b[0] && a[1] == b[1] && a[2] == b[2] && a[3] == b[3];
    proof {
        if r {
            assert(a@ =~= b@);
        }
        if a@ == b@ {
            assert(a@[0] == b@[0] && a@[1] == b@[1] && a@[2] == b@[2] && a@[3] == b@[3]);
        }
    }
    r
}

impl DigestItem {
    /// Construct the seal digest item carrying a signature on the pre-hash.
    pub fn spin_seal(signature: Vec<u8>) -> (r: DigestItem)
        requires
            signature@.len() == 64,
        ensures
            r is Seal,
            r->Seal_0@ == spec_spin_engine_id(),
            r->Seal_1@ == signature@,
            spec_as_spin_seal(r) == Option::Some(signature@),
    {
        proof {
            assert(SPIN_ENGINE_ID@ =~= spec_spin_engine_id());
            assert(signature@.take(64) =~= signature@);
        }
        DigestItem::Seal(SPIN_ENGINE_ID, signature)
    }

    /// If this item is a SPIN seal, return the signature bytes.
    pub fn as_spin_seal(&self) -> (r: Option<Vec<u8>>)
        ensures
            match r {
                Option::Some(sig) => spec_as_spin_seal(*self) == Option::Some(sig@),
                Option::None => spec_as_spin_seal(*self) is None,
            },
    {
        match self {
            DigestItem::Seal(id, data) => {
                if engine_id_eq(id, &SPIN_ENGINE_ID) && data.len() >= 64 {
                    proof {
                        assert(SPIN_ENGINE_ID@ =~= spec_spin_engine_id());
                    }
                    let mut sig: Vec<u8> = Vec::new();
                    for i in 0..64usize
                        invariant
                            data@.len() >= 64,
                            sig@ =~= data@.take(i as int),
                    {
                        sig.push(data[i]);
                    }
                    Some(sig)
                } else {
                    proof {
                        assert(SPIN_ENGINE_ID@ =~= spec_spin_engine_id());
                    }
                    None
                }
            },
            _ => None,
        }
    }

    /// Construct the pre-runtime digest item carrying the slot number.
    ///
    /// This is put into the block header prior to runtime execution, so the
    /// runtime can read the slot from there.
    pub fn spin_pre_digest(slot: Slot) -> (r: DigestItem)
        ensures
            r is PreRuntime,
            r->PreRuntime_0@ == spec_spin_engine_id(),
            r->PreRuntime_1@ == u64_le_bytes(slot),
            spec_as_spin_pre_digest(r) == Option::Some(slot),
    {
        proof {
            assert(SPIN_ENGINE_ID@ =~= spec_spin_engine_id());
            lemma_u64_codec_roundtrip(slot);
        }
        DigestItem::PreRuntime(SPIN_ENGINE_ID, encode_u64(slot))
    }

    /// If this item is a SPIN pre-digest, return the slot number.
    pub fn as_spin_pre_digest(&self) -> (r: Option<Slot>)
        ensures
            r == spec_as_spin_pre_digest(*self),
    {
        match self {
            DigestItem::PreRuntime(id, data) => {
                proof {
                    assert(SPIN_ENGINE_ID@ =~= spec_spin_engine_id());
                }
                if engine_id_eq(id, &SPIN_ENGINE_ID) {
                    decode_u64(data)
                } else {
                    None
                }
            },
            _ => None,
        }
    }
}

impl Clone for DigestItem {
    /// A clone is equal at view level.
    fn clone(&self) -> (r: Self)
        ensures
            digest_item_matches(r, *self),
    {
        match self {
            DigestItem::PreRuntime(id, data) => DigestItem::PreRuntime(*id, data.clone()),
            DigestItem::Consensus(id, data) => DigestItem::Consensus(*id, data.clone()),
            DigestItem::Seal(id, data) => DigestItem::Seal(*id, data.clone()),
            DigestItem::Other(data) => DigestItem::Other(data.clone()),
        }
    }
}

impl Clone for Digest {
    /// A clone is equal at view level, item by item.
    fn clone(&self) -> (r: Self)
        ensures
            logs_match(r.logs@, self.logs@),
    {
        let mut logs: Vec<DigestItem> = Vec::new();
        let n = self.logs.len();
        for i in 0..n
            invariant
                n == self.logs@.len(),
                logs@.len() == i,
                forall|j: int| 0 <= j < i ==> digest_item_matches(#[trigger] logs@[j], self.logs@[j]),
        {
            logs.push(self.logs[i].clone());
        }
        Digest { logs }
    }
}

} // verus!
