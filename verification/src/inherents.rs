//! The inherent-data bridge for SPIN: the current slot is carried into
//! runtime-side inherent checks under a fixed eight-byte identifier, and the
//! verifier replaces any caller-supplied value with its own authoritative
//! slot before the block body is validated.

use vstd::prelude::*;

use crate::codec::{decode_u64, encode_u64, spec_decode_u64, u64_le_bytes};
use crate::Slot;

verus! {

/// The SPIN inherent identifier: the ASCII bytes of "auraslot".
pub const INHERENT_IDENTIFIER: [u8; 8] = [97, 117, 114, 97, 115, 108, 111, 116];

/// The inherent identifier as a sequence, for use in specifications.
pub open spec fn spec_inherent_identifier() -> Seq<u8> {
    seq![97u8, 117u8, 114u8, 97u8, 115u8, 108u8, 111u8, 116u8]
}

/// Errors in handling inherent data.
#[derive(Clone, Copy, Debug, PartialEq, Eq, Structural)]
pub enum InherentError {
    /// A payload is present but does not decode as its expected type.
    DecodingFailed,
    /// Data was put under an identifier that is already taken.
    DuplicateInherent,
}

impl InherentError {
    /// A human-readable reason, in place of a `Display` implementation.
    pub fn message(&self) -> &'static str {
        match self {
            InherentError::DecodingFailed => "Failed to decode inherent data",
            InherentError::DuplicateInherent => "Inherent data already exists for identifier",
        }
    }
}

/// Compare two eight-byte inherent identifiers.
pub fn inherent_id_eq(a: &[u8; 8], b: &[u8; 8]) -> (r: bool)
    ensures
        r == (a@ == b@),
{
    let r = a[0] == b[0] && a[1] == b[1] && a[2] == b[2] && a[3] == b[3] && a[4] == b[4] && a[5]
        == b[5] && a[6] == b[6] && a[7] == b[7];
    proof {
        if r {
            assert(a@ =~= b@);
        }
        if a@ == b@ {
            assert(a@[0] == b@[0] && a@[1] == b@[1] && a@[2] == b@[2] && a@[3] == b@[3] && a@[4]
                == b@[4] && a@[5] == b@[5] && a@[6] == b@[6] && a@[7] == b@[7]);
        }
    }
    r
}

/// The inherent data handed to the runtime alongside a block: one payload
/// per identifier.
pub struct InherentData {
    entries: Vec<([u8; 8], Vec<u8>)>,
}

impl InherentData {
    /// Identifiers are unique.
    pub closed spec fn well_formed(&self) -> bool {
        forall|i: int, j: int|
            0 <= i < j < self.entries@.len() ==> (#[trigger] self.entries@[i]).0@ != (
            #[trigger] self.entries@[j]).0@
    }

    /// Whether a payload is stored under the given identifier.
    pub closed spec fn spec_has(&self, id: Seq<u8>) -> bool {
        exists|i: int| 0 <= i < self.entries@.len() && (#[trigger] self.entries@[i]).0@ == id
    }

    /// The payload stored under the given identifier, if any.
    pub closed spec fn spec_get(&self, id: Seq<u8>) -> Option<Seq<u8>> {
        if self.spec_has(id) {
            let i = choose|i: int| 0 <= i < self.entries@.len() && (#[trigger] self.entries@[i]).0@ == id;
            Option::Some(self.entries@[i].1@)
        } else {
            Option::None
        }
    }

    /// Empty inherent data.
    pub fn new() -> (r: InherentData)
        ensures
            r.well_formed(),
            forall|id: Seq<u8>| r.spec_get(id) is None,
    {
        InherentData { entries: Vec::new() }
    }

    /// Store a payload under an identifier that must not be taken yet.
    pub fn put_data(&mut self, identifier: [u8; 8], payload: Vec<u8>) -> (r: Result<
        (),
        InherentError,
    >)
        requires
            old(self).well_formed(),
        ensures
            final(self).well_formed(),
            match r {
                Result::Ok(()) => {
                    &&& !old(self).spec_has(identifier@)
                    &&& final(self).spec_get(identifier@) == Option::Some(payload@)
                    &&& forall|id: Seq<u8>|
                        id != identifier@ ==> final(self).spec_get(id) == old(self).spec_get(id)
                },
                Result::Err(e) => {
                    &&& e == InherentError::DuplicateInherent
                    &&& old(self).spec_has(identifier@)
                    &&& *final(self) == *old(self)
                },
            },
    {
        let n = self.entries.len();
        for i in 0..n
            invariant
                self == old(self),
                self.well_formed(),
                n == self.entries@.len(),
                forall|j: int| 0 <= j < i ==> (#[trigger] self.entries@[j]).0@ != identifier@,
        {
            if inherent_id_eq(&self.entries[i].0, &identifier) {
                return Err(InherentError::DuplicateInherent);
            }
        }
        let ghost entries_before = self.entries@;
        self.entries.push((identifier, payload));
        proof {
            let m = self.entries@.len() - 1;
            assert(self.entries@[m].0@ == identifier@ && self.entries@[m].1@ == payload@);
            assert(self.spec_has(identifier@));
            let w = choose|i: int|
                0 <= i < self.entries@.len() && (#[trigger] self.entries@[i]).0@ == identifier@;
            assert(w == m);
            assert forall|id: Seq<u8>| id != identifier@ implies final(self).spec_get(id) == old(
                self,
            ).spec_get(id) by {
                if old(self).spec_has(id) {
                    let w2 = choose|i: int|
                        0 <= i < entries_before.len() && (#[trigger] entries_before[i]).0@ == id;
                    assert(self.entries@[w2].0@ == id);
                    assert(self.spec_has(id));
                    let w3 = choose|i: int|
                        0 <= i < self.entries@.len() && (#[trigger] self.entries@[i]).0@ == id;
                    assert(w3 == w2);
                } else {
                    if self.spec_has(id) {
                        let w4 = choose|i: int|
                            0 <= i < self.entries@.len() && (#[trigger] self.entries@[i]).0@ == id;
                        assert(w4 < m);
                        assert(entries_before[w4].0@ == id);
                        assert(old(self).spec_has(id));
                    }
                }
            }
        }
        Ok(())
    }

    /// Store a payload under an identifier, replacing what was there.
    pub fn replace_data(&mut self, identifier: [u8; 8], payload: Vec<u8>)
        requires
            old(self).well_formed(),
        ensures
            final(self).well_formed(),
            final(self).spec_get(identifier@) == Option::Some(payload@),
            forall|id: Seq<u8>| id != identifier@ ==> final(self).spec_get(id) == old(self).spec_get(id),
    {
        let n = self.entries.len();
        for i in 0..n
            invariant
                self == old(self),
                self.well_formed(),
                n == self.entries@.len(),
                forall|j: int| 0 <= j < i ==> (#[trigger] self.entries@[j]).0@ != identifier@,
        {
            if inherent_id_eq(&self.entries[i].0, &identifier) {
                let ghost entries_before = self.entries@;
                self.entries[i] = (identifier, payload);
                proof {
                    assert(self.entries@ =~= entries_before.update(i as int, self.entries@[i as int]));
                    assert(self.entries@[i as int].0@ == identifier@ && self.entries@[i as int].1@
                        == payload@);
                    assert forall|i2: int, j2: int|
                        0 <= i2 < j2 < self.entries@.len() implies (#[trigger] self.entries@[i2]).0@
                        != (#[trigger] self.entries@[j2]).0@ by {
                        assert(entries_before[i2].0@ != entries_before[j2].0@);
                        if i2 != i as int {
                            assert(self.entries@[i2] == entries_before[i2]);
                        }
                        if j2 != i as int {
                            assert(self.entries@[j2] == entries_before[j2]);
                        }
                    }
                    assert(self.spec_has(identifier@));
                    let w = choose|k: int|
                        0 <= k < self.entries@.len() && (#[trigger] self.entries@[k]).0@ == identifier@;
                    assert(w == i as int);
                    assert forall|id: Seq<u8>| id != identifier@ implies self.spec_get(id) == old(
                        self,
                    ).spec_get(id) by {
                        if old(self).spec_has(id) {
                            let w2 = choose|k: int|
                                0 <= k < entries_before.len() && (#[trigger] entries_before[k]).0@ == id;
                            assert(w2 != i as int);
                            assert(self.entries@[w2].0@ == id);
                            assert(self.spec_has(id));
                            let w3 = choose|k: int|
                                0 <= k < self.entries@.len() && (#[trigger] self.entries@[k]).0@ == id;
                            assert(w3 != i as int);
                            assert(entries_before[w3].0@ == id);
                            assert(w3 == w2);
                        } else {
                            if self.spec_has(id) {
                                let w4 = choose|k: int|
                                    0 <= k < self.entries@.len() && (#[trigger] self.entries@[k]).0@ == id;
                                assert(w4 != i as int);
                                assert(entries_before[w4].0@ == id);
                                assert(old(self).spec_has(id));
                            }
                        }
                    }
                }
                return;
            }
        }
        let ghost entries_before = self.entries@;
        self.entries.push((identifier, payload));
        proof {
            let m = self.entries@.len() - 1;
            assert(self.entries@[m].0@ == identifier@ && self.entries@[m].1@ == payload@);
            assert(self.spec_has(identifier@));
            let w = choose|k: int|
                0 <= k < self.entries@.len() && (#[trigger] self.entries@[k]).0@ == identifier@;
            assert(w == m);
            assert forall|id: Seq<u8>| id != identifier@ implies self.spec_get(id) == old(
                self,
            ).spec_get(id) by {
                if old(self).spec_has(id) {
                    let w2 = choose|k: int|
                        0 <= k < entries_before.len() && (#[trigger] entries_before[k]).0@ == id;
                    assert(self.entries@[w2].0@ == id);
                    assert(self.spec_has(id));
                    let w3 = choose|k: int|
                        0 <= k < self.entries@.len() && (#[trigger] self.entries@[k]).0@ == id;
                    assert(w3 == w2);
                } else {
                    if self.spec_has(id) {
                        let w4 = choose|k: int|
                            0 <= k < self.entries@.len() && (#[trigger] self.entries@[k]).0@ == id;
                        assert(w4 < m);
                        assert(entries_before[w4].0@ == id);
                        assert(old(self).spec_has(id));
                    }
                }
            }
        }
    }

    /// Get the payload stored under the given identifier, if any.
    pub fn get_raw(&self, identifier: &[u8; 8]) -> (r: Option<&Vec<u8>>)
        requires
            self.well_formed(),
        ensures
            match r {
                Option::Some(payload) => self.spec_get(identifier@) == Option::Some(payload@),
                Option::None => self.spec_get(identifier@) is None,
            },
    {
        let n = self.entries.len();
        for i in 0..n
            invariant
                self.well_formed(),
                n == self.entries@.len(),
                forall|j: int| 0 <= j < i ==> (#[trigger] self.entries@[j]).0@ != identifier@,
        {
            if inherent_id_eq(&self.entries[i].0, identifier) {
                proof {
                    assert(self.spec_has(identifier@));
                    let w = choose|k: int|
                        0 <= k < self.entries@.len() && (#[trigger] self.entries@[k]).0@ == identifier@;
                    assert(w == i as int);
                }
                return Some(&self.entries[i].1);
            }
        }
        None
    }

    /// Get the SPIN inherent: the slot carried under the SPIN identifier.
    ///
    /// Absent data is `Ok(None)`; a payload that does not decode as a slot is
    /// an error.
    pub fn spin_inherent_data(&self) -> (r: Result<Option<Slot>, InherentError>)
        requires
            self.well_formed(),
        ensures
            match r {
                Result::Ok(Option::Some(slot)) => self.spec_get(spec_inherent_identifier()) matches
                    Option::Some(payload) && spec_decode_u64(payload) == Option::Some(slot),
                Result::Ok(Option::None) => self.spec_get(spec_inherent_identifier()) is None,
                Result::Err(e) => e == InherentError::DecodingFailed && (self.spec_get(
                    spec_inherent_identifier(),
                ) matches Option::Some(payload) && spec_decode_u64(payload) is None),
            },
    {
        proof {
            assert(INHERENT_IDENTIFIER@ =~= spec_inherent_identifier());
        }
        match self.get_raw(&INHERENT_IDENTIFIER) {
            None => Ok(None),
            Some(payload) => match decode_u64(payload) {
                Some(slot) => Ok(Some(slot)),
                None => Err(InherentError::DecodingFailed),
            },
        }
    }

    /// Replace the SPIN inherent with the given slot.
    pub fn spin_replace_inherent_data(&mut self, new: Slot)
        requires
            old(self).well_formed(),
        ensures
            final(self).well_formed(),
            final(self).spec_get(spec_inherent_identifier()) == Option::Some(u64_le_bytes(new)),
            forall|id: Seq<u8>|
                id != spec_inherent_identifier() ==> final(self).spec_get(id) == old(self).spec_get(id),
    {
        proof {
            assert(INHERENT_IDENTIFIER@ =~= spec_inherent_identifier());
        }
        let payload = encode_u64(new);
        self.replace_data(INHERENT_IDENTIFIER, payload);
    }
}

/// Provides the slot inherent data for SPIN.
pub struct InherentDataProvider {
    slot: Slot,
}

impl InherentDataProvider {
    /// Create a new instance with the given slot.
    pub fn new(slot: Slot) -> (r: InherentDataProvider)
        ensures
            r.slot() == slot,
    {
        InherentDataProvider { slot }
    }

    /// The slot this provider carries.
    pub closed spec fn spec_slot(&self) -> Slot {
        self.slot
    }

    /// The slot this provider carries.
    #[verifier::when_used_as_spec(spec_slot)]
    pub fn slot(&self) -> (r: Slot)
        ensures
            r == self.spec_slot(),
    {
        self.slot
    }

    /// Creates the provider by calculating the slot from the given timestamp
    /// and slot duration, both in milliseconds.
    pub fn from_timestamp_and_slot_duration(timestamp: u64, slot_duration: u64) -> (r: InherentDataProvider)
        requires
            slot_duration != 0,
        ensures
            r.slot() == timestamp / slot_duration,
    {
        InherentDataProvider { slot: timestamp / slot_duration }
    }

    /// Put this provider's slot into the inherent data.
    pub fn provide_inherent_data(&self, inherent_data: &mut InherentData) -> (r: Result<
        (),
        InherentError,
    >)
        requires
            old(inherent_data).well_formed(),
        ensures
            final(inherent_data).well_formed(),
            match r {
                Result::Ok(()) => {
                    &&& final(inherent_data).spec_get(spec_inherent_identifier()) == Option::Some(
                        u64_le_bytes(self.slot()),
                    )
                    &&& forall|id: Seq<u8>|
                        id != spec_inherent_identifier() ==> final(inherent_data).spec_get(id) == old(
                            inherent_data,
                        ).spec_get(id)
                },
                Result::Err(e) => {
                    &&& e == InherentError::DuplicateInherent
                    &&& old(inherent_data).spec_has(spec_inherent_identifier())
                    &&& *final(inherent_data) == *old(inherent_data)
                },
            },
    {
        proof {
            assert(INHERENT_IDENTIFIER@ =~= spec_inherent_identifier());
        }
        let payload = encode_u64(self.slot);
        inherent_data.put_data(INHERENT_IDENTIFIER, payload)
    }

    /// This provider recognizes no inherent errors: there is nothing it can
    /// reconcile, so every error is left to the caller to escalate.
    pub fn try_handle_error(&self, _identifier: &[u8; 8], _error: &Vec<u8>) -> (r: Option<
        Result<(), InherentError>,
    >)
        ensures
            r is None,
    {
        None
    }
}

} // verus!
