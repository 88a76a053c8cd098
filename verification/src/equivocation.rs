//! Equivocation detection: two distinct headers claiming the same slot from
//! the same author. The detector keeps a record of which header each author
//! produced at each recent slot; a second, different header for a recorded
//! (slot, author) pair is evidence of equivocation. A detected proof is
//! evidence for a separate offence-reporting mechanism, never an import-time
//! rejection reason.

use vstd::prelude::*;

use crate::header::{lemma_hash_respects_matches, spec_header_hash, Header};
use crate::{AuthorityId, Slot};

verus! {

/// Slots older than this, relative to the verifier's current slot, are no
/// longer checked for equivocation.
pub const MAX_SLOT_CAPACITY: u64 = 1000;

/// Evidence that one author signed two distinct headers for one slot.
pub struct EquivocationProof {
    /// The slot both headers claim.
    pub slot: Slot,
    /// The author who signed both headers.
    pub offender: AuthorityId,
    /// The header seen first.
    pub first_header: Header,
    /// The conflicting header seen second.
    pub second_header: Header,
}

struct SlotHeaderRecord {
    slot: Slot,
    signer: AuthorityId,
    header: Header,
    hash: Vec<u8>,
}

/// The record of headers seen per slot and author.
///
/// Records are kept for the life of the store: the host that persists such
/// records prunes slots that fall out of the capacity window, which this
/// in-memory model leaves to the owner — detection itself never consults a
/// slot outside the window.
pub struct EquivocationStore {
    records: Vec<SlotHeaderRecord>,
}

impl EquivocationStore {
    /// Each record's cached hash is the hash of its header, and at most one
    /// header is recorded per slot and signer.
    pub closed spec fn well_formed(&self) -> bool {
        &&& forall|i: int| 0 <= i < self.records@.len() ==> (#[trigger] self.records@[i]).hash@
            == spec_header_hash(self.records@[i].header)
        &&& forall|i: int, j: int|
            0 <= i < j < self.records@.len() ==> !((#[trigger] self.records@[i]).slot == (
            #[trigger] self.records@[j]).slot && self.records@[i].signer@ == self.records@[j].signer@)
    }

    /// The recorded (slot, signer, header hash) triples, in insertion order.
    pub closed spec fn spec_entries(&self) -> Seq<(Slot, Seq<u8>, Seq<u8>)> {
        self.records@.map_values(|r: SlotHeaderRecord| (r.slot, r.signer@, r.hash@))
    }

    /// Whether some recorded header for this slot and signer has a different
    /// hash: the conflict that makes a second header an equivocation.
    pub open spec fn spec_has_conflict(&self, slot: Slot, signer: Seq<u8>, hash: Seq<u8>) -> bool {
        exists|i: int|
            0 <= i < self.spec_entries().len() && (#[trigger] self.spec_entries()[i]).0 == slot
                && self.spec_entries()[i].1 == signer && self.spec_entries()[i].2 != hash
    }

    /// Whether a header is recorded for this slot and signer.
    pub open spec fn spec_has_record(&self, slot: Slot, signer: Seq<u8>) -> bool {
        exists|i: int|
            0 <= i < self.spec_entries().len() && (#[trigger] self.spec_entries()[i]).0 == slot
                && self.spec_entries()[i].1 == signer
    }

    /// An empty store.
    pub fn new() -> (r: EquivocationStore)
        ensures
            r.well_formed(),
            r.spec_entries() == Seq::<(Slot, Seq<u8>, Seq<u8>)>::empty(),
    {
        let r = EquivocationStore { records: Vec::new() };
        proof {
            assert(r.spec_entries() =~= Seq::<(Slot, Seq<u8>, Seq<u8>)>::empty());
        }
        r
    }
}

/// Checks if the header is an equivocation and returns the proof in that case.
///
/// Slots older than the verifier's current slot by more than the store's
/// capacity are not checked. A header already recorded for its slot and
/// signer is not an equivocation of itself; a first header for a (slot,
/// signer) pair is recorded for later cross-checks.
pub fn check_equivocation(
    store: &mut EquivocationStore,
    slot_now: Slot,
    slot: Slot,
    header: &Header,
    signer: &AuthorityId,
) -> (r: Option<EquivocationProof>)
    requires
        old(store).well_formed(),
    ensures
        final(store).well_formed(),
        ({
            let hash = spec_header_hash(*header);
            let out_of_capacity = slot_now > slot && slot_now - slot > MAX_SLOT_CAPACITY;
            match r {
                Option::Some(proof) => {
                    &&& !out_of_capacity
                    &&& old(store).spec_has_conflict(slot, signer@, hash)
                    &&& proof.slot == slot
                    &&& proof.offender@ == signer@
                    &&& spec_header_hash(proof.second_header) == hash
                    &&& spec_header_hash(proof.first_header) != hash
                    &&& final(store).spec_entries() == old(store).spec_entries()
                },
                Option::None => {
                    ||| (out_of_capacity && final(store).spec_entries() == old(store).spec_entries())
                    ||| ({
                        &&& !old(store).spec_has_conflict(slot, signer@, hash)
                        &&& final(store).spec_has_record(slot, signer@)
                        &&& (old(store).spec_has_record(slot, signer@) ==> final(store).spec_entries()
                            == old(store).spec_entries())
                        &&& (!old(store).spec_has_record(slot, signer@) ==> final(store).spec_entries()
                            == old(store).spec_entries().push((slot, signer@, hash)))
                    })
                },
            }
        }),
{
    // We don't check equivocations for old headers out of our capacity.
    if slot_now > slot && slot_now - slot > MAX_SLOT_CAPACITY {
        return None;
    }
    let hash = header.hash();
    let n = store.records.len();
    for i in 0..n
        invariant
            store.well_formed(),
            store.spec_entries() == old(store).spec_entries(),
            n == store.records@.len(),
            hash@ == spec_header_hash(*header),
            !(slot_now > slot && slot_now - slot > MAX_SLOT_CAPACITY),
            forall|j: int|
                0 <= j < i ==> !((#[trigger] store.spec_entries()[j]).0 == slot
                    && store.spec_entries()[j].1 == signer@),
    {
        let record = &store.records[i];
        if record.slot == slot && crate::codec::bytes_eq(&record.signer, signer) {
            if !crate::codec::bytes_eq(&record.hash, &hash) {
                let first_header = record.header.clone();
                proof {
                    lemma_hash_respects_matches(first_header, store.records@[i as int].header);
                    assert(store.spec_entries()[i as int].2 != hash@);
                }
                let second_header = header.clone();
                proof {
                    lemma_hash_respects_matches(second_header, *header);
                }
                return Some(EquivocationProof {
                    slot,
                    offender: signer.clone(),
                    first_header,
                    second_header,
                });
            } else {
                proof {
                    assert forall|j: int|
                        0 <= j < store.spec_entries().len() && (#[trigger] store.spec_entries()[j]).0
                            == slot && store.spec_entries()[j].1 == signer@ implies store.spec_entries()[j].2
                        == spec_header_hash(*header) by {
                        assert(store.spec_entries()[j] == (store.records@[j].slot,
                            store.records@[j].signer@, store.records@[j].hash@));
                        if j < i as int {
                            assert(!(store.spec_entries()[j].0 == slot && store.spec_entries()[j].1
                                == signer@));
                        } else if j > i as int {
                            assert(!(store.records@[i as int].slot == store.records@[j].slot
                                && store.records@[i as int].signer@ == store.records@[j].signer@));
                        }
                    }
                    assert(!store.spec_has_conflict(slot, signer@, spec_header_hash(*header)));
                    assert(store.spec_entries()[i as int].0 == slot && store.spec_entries()[i as int].1
                        == signer@);
                    assert(store.spec_has_record(slot, signer@));
                }
                return None;
            }
        }
    }
    proof {
        assert forall|j: int|
            0 <= j < store.records@.len() implies !((#[trigger] store.records@[j]).slot == slot
            && store.records@[j].signer@ == signer@) by {
            assert(store.spec_entries()[j] == (store.records@[j].slot, store.records@[j].signer@,
                store.records@[j].hash@));
        }
        assert(!store.spec_has_record(slot, signer@));
        assert(!store.spec_has_conflict(slot, signer@, spec_header_hash(*header))) by {
            if store.spec_has_conflict(slot, signer@, spec_header_hash(*header)) {
                let j = choose|j: int|
                    0 <= j < store.spec_entries().len() && (#[trigger] store.spec_entries()[j]).0
                        == slot && store.spec_entries()[j].1 == signer@
                        && store.spec_entries()[j].2 != spec_header_hash(*header);
                assert(store.spec_has_record(slot, signer@));
            }
        }
    }
    let record = SlotHeaderRecord { slot, signer: signer.clone(), header: header.clone(), hash };
    proof {
        lemma_hash_respects_matches(record.header, *header);
    }
    let ghost entries_before = store.spec_entries();
    let ghost records_before = store.records@;
    store.records.push(record);
    proof {
        assert(store.spec_entries() =~= entries_before.push((slot, signer@, spec_header_hash(*header))));
        let m = store.records@.len() - 1;
        assert forall|i2: int, j2: int| 0 <= i2 < j2 < store.records@.len() implies !((
        #[trigger] store.records@[i2]).slot == (#[trigger] store.records@[j2]).slot
            && store.records@[i2].signer@ == store.records@[j2].signer@) by {
            if j2 == m {
                assert(store.records@[i2] == records_before[i2]);
            }
        }
        assert(store.spec_entries()[m].0 == slot && store.spec_entries()[m].1 == signer@);
        assert(store.spec_has_record(slot, signer@));
    }
    None
}

} // verus!
