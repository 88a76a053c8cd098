//! The on-chain SPIN module, over plain values: the authority list, the
//! current slot and the session length, with the transitions the runtime
//! applies to them — slot monotonicity enforcement at block initialization,
//! session-driven authority rotation, author lookup from digests, and the
//! session-length governance call.

use vstd::prelude::*;

use crate::codec::{bytes_eq, decode_u64, spec_decode_u64};
use crate::digests::{engine_id_eq, Digest, DigestItem};
use crate::{
    encode_consensus_log, spec_encode_consensus_log, spec_spin_engine_id, AuthorityId, ConsensusLog,
    SessionLength, Slot, SPIN_ENGINE_ID,
};

verus! {

/// A way to check whether a given validator is disabled and should not be
/// authoring blocks. Implemented by the host's validator management.
pub trait DisabledValidators {
    /// Whether the validator at this index is disabled.
    spec fn spec_is_disabled(&self, index: u32) -> bool;

    /// Whether the validator at this index is disabled.
    fn is_disabled(&self, index: u32) -> (r: bool)
        ensures
            r == self.spec_is_disabled(index),
    ;
}

/// Errors of the SPIN module's calls.
#[derive(Clone, Copy, Debug, PartialEq, Eq, Structural)]
pub enum Error {
    /// Zero session length.
    SessionLengthZero,
}

/// Events the SPIN module deposits.
#[derive(Clone, Copy, Debug, PartialEq, Eq, Structural)]
pub enum Event {
    /// A new session length was set.
    NewSessionLength(SessionLength),
}

/// A slot duration inferred from the host's minimum block period by
/// multiplying it by two, so that authors have the majority of their slot to
/// author within.
pub struct MinimumPeriodTimesTwo;

impl MinimumPeriodTimesTwo {
    /// Twice the minimum period, saturating at the type's maximum.
    pub fn get(minimum_period: u64) -> (r: u64)
        ensures
            minimum_period <= u64::MAX / 2 ==> r == 2 * minimum_period,
            minimum_period > u64::MAX / 2 ==> r == u64::MAX,
    {
        if minimum_period > u64::MAX / 2 {
            u64::MAX
        } else {
            2 * minimum_period
        }
    }
}

/// The payload of the first pre-runtime digest item tagged with the SPIN
/// engine, if any.
pub open spec fn spec_first_spin_pre_runtime(logs: Seq<DigestItem>) -> Option<Seq<u8>>
    decreases logs.len(),
{
    if logs.len() == 0 {
        Option::None
    } else {
        match logs.first() {
            DigestItem::PreRuntime(id, data) => if id@ == spec_spin_engine_id() {
                Option::Some(data@)
            } else {
                spec_first_spin_pre_runtime(logs.drop_first())
            },
            _ => spec_first_spin_pre_runtime(logs.drop_first()),
        }
    }
}

/// The slot the digest log carries: the decoded payload of the first SPIN
/// pre-runtime item. A payload that does not decode yields nothing.
pub open spec fn spec_current_slot_from_digests(logs: Seq<DigestItem>) -> Option<Slot> {
    match spec_first_spin_pre_runtime(logs) {
        Option::Some(payload) => spec_decode_u64(payload),
        Option::None => Option::None,
    }
}

/// Whether two authority lists hold the same keys in the same order.
pub open spec fn spec_authority_lists_equal(a: Seq<AuthorityId>, b: Seq<AuthorityId>) -> bool {
    a.len() == b.len() && forall|i: int| 0 <= i < a.len() ==> (#[trigger] a[i])@ == b[i]@
}

/// Compare two authority lists key by key.
pub fn authority_lists_eq(a: &Vec<AuthorityId>, b: &Vec<AuthorityId>) -> (r: bool)
    ensures
        r == spec_authority_lists_equal(a@, b@),
{
    if a.len() != b.len() {
        return false;
    }
    let n = a.len();
    for i in 0..n
        invariant
            n == a@.len() && n == b@.len(),
            forall|j: int| 0 <= j < i ==> (#[trigger] a@[j])@ == b@[j]@,
    {
        if !bytes_eq(&a[i], &b[i]) {
            return false;
        }
    }
    true
}

/// The SPIN module's storage: the authority list, the current slot and the
/// session length, together with the configured authority-list bound.
pub struct SpinState {
    authorities: Vec<AuthorityId>,
    current_slot: Slot,
    session_length: SessionLength,
    max_authorities: u32,
}

impl SpinState {
    /// The session length is positive and the authority list respects its
    /// bound.
    pub closed spec fn well_formed(&self) -> bool {
        &&& self.session_length != 0
        &&& self.authorities@.len() <= self.max_authorities
    }

    /// The authority list.
    pub closed spec fn spec_authorities(&self) -> Seq<AuthorityId> {
        self.authorities@
    }

    /// The current slot.
    pub closed spec fn spec_current_slot(&self) -> Slot {
        self.current_slot
    }

    /// The session length.
    pub closed spec fn spec_session_length(&self) -> SessionLength {
        self.session_length
    }

    /// The configured bound on the authority list.
    pub closed spec fn spec_max_authorities(&self) -> u32 {
        self.max_authorities
    }

    /// The genesis state: the initial authorities, slot zero, and the default
    /// session length.
    pub fn new(
        authorities: Vec<AuthorityId>,
        max_authorities: u32,
        default_session_length: SessionLength,
    ) -> (r: SpinState)
        requires
            authorities@.len() <= max_authorities,
            default_session_length != 0,
        ensures
            r.well_formed(),
            r.spec_authorities() == authorities@,
            r.spec_current_slot() == 0,
            r.spec_session_length() == default_session_length,
            r.spec_max_authorities() == max_authorities,
    {
        SpinState {
            authorities,
            current_slot: 0,
            session_length: default_session_length,
            max_authorities,
        }
    }

    /// Return current authorities length.
    pub fn authorities_len(&self) -> (r: usize)
        ensures
            r == self.spec_authorities().len(),
    {
        self.authorities.len()
    }

    /// The current slot of this block; set at block initialization.
    pub fn current_slot(&self) -> (r: Slot)
        ensures
            r == self.spec_current_slot(),
    {
        self.current_slot
    }

    /// The session length in slots.
    pub fn session_length(&self) -> (r: SessionLength)
        ensures
            r == self.spec_session_length(),
    {
        self.session_length
    }

    /// Get the current slot from the pre-runtime digests.
    pub fn current_slot_from_digests(digest: &Digest) -> (r: Option<Slot>)
        ensures
            r == spec_current_slot_from_digests(digest.logs@),
    {
        let n = digest.logs.len();
        let ghost logs = digest.logs@;
        proof {
            assert(logs.skip(0) =~= logs);
        }
        for i in 0..n
            invariant
                n == logs.len(),
                logs == digest.logs@,
                spec_first_spin_pre_runtime(logs) == spec_first_spin_pre_runtime(logs.skip(i as int)),
        {
            proof {
                assert(logs.skip(i as int).first() == logs[i as int]);
                assert(logs.skip(i as int).drop_first() =~= logs.skip(i + 1));
            }
            match &digest.logs[i] {
                DigestItem::PreRuntime(id, data) => {
                    if engine_id_eq(id, &SPIN_ENGINE_ID) {
                        proof {
                            assert(SPIN_ENGINE_ID@ =~= spec_spin_engine_id());
                        }
                        return decode_u64(data);
                    }
                    proof {
                        assert(SPIN_ENGINE_ID@ =~= spec_spin_engine_id());
                    }
                },
                _ => {},
            }
        }
        proof {
            assert(logs.skip(n as int) =~= Seq::<DigestItem>::empty());
        }
        None
    }

    /// Block initialization: read the new slot from the digests and enforce
    /// monotonicity — the slot must strictly increase, or merely not decrease
    /// where multiple blocks per slot are allowed — and the slot's author
    /// must not be a disabled validator. Violations are contract violations:
    /// they mean a corrupted host configuration, not a recoverable error.
    ///
    /// Returns the storage reads and writes performed, as the host's weight
    /// accounting counts them.
    pub fn on_initialize<D: DisabledValidators>(
        &mut self,
        digest: &Digest,
        disabled: &D,
        allow_multiple_blocks_per_slot: bool,
    ) -> (r: (u64, u64))
        requires
            old(self).well_formed(),
            ({
                match spec_current_slot_from_digests(digest.logs@) {
                    Option::Some(new_slot) => {
                        &&& (if allow_multiple_blocks_per_slot {
                            old(self).spec_current_slot() <= new_slot
                        } else {
                            old(self).spec_current_slot() < new_slot
                        })
                        &&& (old(self).spec_authorities().len() > 0 ==> !disabled.spec_is_disabled(
                            (new_slot % (old(self).spec_authorities().len() as u64)) as u32,
                        ))
                    },
                    Option::None => true,
                }
            }),
        ensures
            final(self).well_formed(),
            final(self).spec_authorities() == old(self).spec_authorities(),
            final(self).spec_session_length() == old(self).spec_session_length(),
            final(self).spec_max_authorities() == old(self).spec_max_authorities(),
            match spec_current_slot_from_digests(digest.logs@) {
                Option::Some(new_slot) => final(self).spec_current_slot() == new_slot && r == (
                    2u64,
                    1u64,
                ),
                Option::None => final(self).spec_current_slot() == old(self).spec_current_slot() && r
                    == (1u64, 0u64),
            },
    {
        match Self::current_slot_from_digests(digest) {
            Some(new_slot) => {
                self.current_slot = new_slot;
                if self.authorities.len() > 0 {
                    let authority_index = new_slot % (self.authorities.len() as u64);
                    let author_disabled = disabled.is_disabled(authority_index as u32);
                    proof {
                        // The contract rules a disabled author out; in the
                        // host this is where block production would halt.
                        assert(!author_disabled);
                    }
                }
                (2, 1)
            },
            None => (1, 0),
        }
    }

    /// Set a new session length. The host checks the call's origin; a zero
    /// length is rejected here. Returns the event to deposit.
    pub fn set_session_length(&mut self, session_len: SessionLength) -> (r: Result<Event, Error>)
        requires
            old(self).well_formed(),
        ensures
            final(self).well_formed(),
            final(self).spec_authorities() == old(self).spec_authorities(),
            final(self).spec_current_slot() == old(self).spec_current_slot(),
            final(self).spec_max_authorities() == old(self).spec_max_authorities(),
            match r {
                Result::Ok(event) => {
                    &&& session_len != 0
                    &&& final(self).spec_session_length() == session_len
                    &&& event == Event::NewSessionLength(session_len)
                },
                Result::Err(e) => {
                    &&& session_len == 0
                    &&& e == Error::SessionLengthZero
                    &&& final(self).spec_session_length() == old(self).spec_session_length()
                },
            },
    {
        if session_len == 0 {
            return Err(Error::SessionLengthZero);
        }
        self.session_length = session_len;
        Ok(Event::NewSessionLength(session_len))
    }

    /// Change the authorities, effective immediately, and return the SPIN
    /// consensus log to append to the block's digest. An empty list is
    /// ignored: no change, no log.
    pub fn change_authorities(&mut self, new: Vec<AuthorityId>) -> (r: Option<DigestItem>)
        requires
            old(self).well_formed(),
            new@.len() <= old(self).spec_max_authorities(),
        ensures
            final(self).well_formed(),
            final(self).spec_current_slot() == old(self).spec_current_slot(),
            final(self).spec_session_length() == old(self).spec_session_length(),
            final(self).spec_max_authorities() == old(self).spec_max_authorities(),
            match r {
                Option::Some(item) => {
                    &&& new@.len() > 0
                    &&& final(self).spec_authorities() == new@
                    &&& item matches DigestItem::Consensus(id, data) && id@ == spec_spin_engine_id()
                        && data@ == spec_encode_consensus_log(ConsensusLog::AuthoritiesChange(new))
                },
                Option::None => new@.len() == 0 && final(self).spec_authorities() == old(self).spec_authorities(),
            },
    {
        if new.is_empty() {
            return None;
        }
        let log = ConsensusLog::AuthoritiesChange(new);
        let payload = encode_consensus_log(&log);
        let authorities = match log {
            ConsensusLog::AuthoritiesChange(authorities) => authorities,
            ConsensusLog::OnDisabled(_) => Vec::new(),
        };
        self.authorities = authorities;
        proof {
            assert(SPIN_ENGINE_ID@ =~= spec_spin_engine_id());
        }
        Some(DigestItem::Consensus(SPIN_ENGINE_ID, payload))
    }

    /// Set the initial authorities. An empty list leaves the storage
    /// untouched, whatever it holds; a non-empty list demands storage that
    /// was never initialized, and one over the configured bound is a host
    /// configuration error.
    pub fn initialize_authorities(&mut self, authorities: Vec<AuthorityId>)
        requires
            old(self).well_formed(),
            authorities@.len() == 0 || old(self).spec_authorities().len() == 0,
            authorities@.len() <= old(self).spec_max_authorities(),
        ensures
            final(self).well_formed(),
            final(self).spec_current_slot() == old(self).spec_current_slot(),
            final(self).spec_session_length() == old(self).spec_session_length(),
            final(self).spec_max_authorities() == old(self).spec_max_authorities(),
            authorities@.len() > 0 ==> final(self).spec_authorities() == authorities@,
            authorities@.len() == 0 ==> final(self).spec_authorities() == old(self).spec_authorities(),
    {
        if !authorities.is_empty() {
            self.authorities = authorities;
        }
    }

    /// Auxiliary data for SPIN: the authority list and the session length.
    pub fn aux_data(&self) -> (r: crate::SpinAuxData)
        requires
            self.well_formed(),
        ensures
            r.1 == self.spec_session_length(),
            r.1 != 0,
            r.0@.len() == self.spec_authorities().len(),
            forall|i: int| 0 <= i < r.0@.len() ==> (#[trigger] r.0@[i])@ == self.spec_authorities()[i]@,
    {
        let n = self.authorities.len();
        let mut authorities: Vec<AuthorityId> = Vec::new();
        for i in 0..n
            invariant
                n == self.authorities@.len(),
                authorities@.len() == i,
                forall|j: int| 0 <= j < i ==> (#[trigger] authorities@[j])@ == self.authorities@[j]@,
        {
            authorities.push(self.authorities[i].clone());
        }
        (authorities, self.session_length)
    }

    /// Ensure the correctness of the state of this module: the current slot
    /// — from the digests where present, the stored slot otherwise — can
    /// still increase unless multiple blocks per slot are allowed, the
    /// authorities are non-empty, and the current author is not disabled.
    pub fn do_try_state<D: DisabledValidators>(
        &self,
        digest: &Digest,
        disabled: &D,
        allow_multiple_blocks_per_slot: bool,
    ) -> (r: Result<(), &'static str>)
        requires
            self.well_formed(),
        ensures
            ({
                let current_slot = match spec_current_slot_from_digests(digest.logs@) {
                    Option::Some(s) => s,
                    Option::None => self.spec_current_slot(),
                };
                let n = self.spec_authorities().len();
                r is Ok <==> {
                    &&& (!allow_multiple_blocks_per_slot ==> current_slot < u64::MAX)
                    &&& n > 0
                    &&& !disabled.spec_is_disabled((current_slot % (n as u64)) as u32)
                }
            }),
    {
        // We don't have any guarantee that we are already after block
        // initialization, so take the slot from the digest or fall back to
        // the last known slot.
        let current_slot = match Self::current_slot_from_digests(digest) {
            Some(s) => s,
            None => self.current_slot,
        };
        if !allow_multiple_blocks_per_slot && current_slot == u64::MAX {
            return Err("Current slot has reached maximum value and cannot be incremented further.");
        }
        let n = self.authorities.len();
        if n == 0 {
            return Err("Authorities must be non-empty.");
        }
        let authority_index = current_slot % (n as u64);
        if disabled.is_disabled(authority_index as u32) {
            return Err("Current validator is disabled and should not be attempting to author blocks.");
        }
        Ok(())
    }

    /// Start of the first session: adopt the genesis validators as the
    /// initial authorities. An empty validator set is a no-op.
    pub fn on_genesis_session(&mut self, validators: Vec<AuthorityId>)
        requires
            old(self).well_formed(),
            validators@.len() == 0 || old(self).spec_authorities().len() == 0,
            validators@.len() <= old(self).spec_max_authorities(),
        ensures
            final(self).well_formed(),
            validators@.len() > 0 ==> final(self).spec_authorities() == validators@,
            validators@.len() == 0 ==> final(self).spec_authorities() == old(self).spec_authorities(),
    {
        self.initialize_authorities(validators);
    }

    /// Start of a new session: where the validator set changed and differs
    /// from the current authorities, adopt it — truncated to the configured
    /// bound — and return the consensus log to deposit.
    pub fn on_new_session(&mut self, changed: bool, validators: Vec<AuthorityId>) -> (r: Option<
        DigestItem,
    >)
        requires
            old(self).well_formed(),
        ensures
            final(self).well_formed(),
            final(self).spec_current_slot() == old(self).spec_current_slot(),
            final(self).spec_session_length() == old(self).spec_session_length(),
            !changed ==> final(self).spec_authorities() == old(self).spec_authorities() && r is None,
            spec_authority_lists_equal(validators@, old(self).spec_authorities()) ==> final(self).spec_authorities() == old(self).spec_authorities() && r is None,
            (changed && !spec_authority_lists_equal(validators@, old(self).spec_authorities()))
                ==> ({
                let bounded = if validators@.len() <= old(self).spec_max_authorities() {
                    validators@
                } else {
                    validators@.take(old(self).spec_max_authorities() as int)
                };
                &&& (bounded.len() > 0 ==> final(self).spec_authorities() == bounded && (
                r matches Option::Some(item) && item is Consensus))
                &&& (bounded.len() == 0 ==> final(self).spec_authorities() == old(self).spec_authorities() && r is None)
            }),
    {
        if !changed {
            return None;
        }
        if authority_lists_eq(&validators, &self.authorities) {
            return None;
        }
        let mut next_authorities = validators;
        if next_authorities.len() > self.max_authorities as usize {
            next_authorities.truncate(self.max_authorities as usize);
            proof {
                assert(next_authorities@ =~= next_authorities@);
            }
        }
        self.change_authorities(next_authorities)
    }

    /// A validator was disabled: the consensus log announcing it.
    pub fn on_disabled(&self, i: u32) -> (r: DigestItem)
        ensures
            r matches DigestItem::Consensus(id, data) && id@ == spec_spin_engine_id() && data@
                == spec_encode_consensus_log(ConsensusLog::OnDisabled(i)),
    {
        let payload = encode_consensus_log(&ConsensusLog::OnDisabled(i));
        proof {
            assert(SPIN_ENGINE_ID@ =~= spec_spin_engine_id());
        }
        DigestItem::Consensus(SPIN_ENGINE_ID, payload)
    }

    /// Whether the given key is one of the current authorities.
    pub fn is_member(&self, authority_id: &AuthorityId) -> (r: bool)
        ensures
            r == exists|i: int|
                0 <= i < self.spec_authorities().len() && (#[trigger] self.spec_authorities()[i])@
                    == authority_id@,
    {
        let n = self.authorities.len();
        for i in 0..n
            invariant
                n == self.authorities@.len(),
                forall|j: int| 0 <= j < i ==> (#[trigger] self.authorities@[j])@ != authority_id@,
        {
            if bytes_eq(&self.authorities[i], authority_id) {
                proof {
                    assert((self.spec_authorities()[i as int])@ == authority_id@);
                }
                return true;
            }
        }
        false
    }

    /// The timestamp hook: the slot derived from the wall-clock moment must
    /// match the slot the block was sealed for; a mismatch means the node's
    /// configured block time is incompatible with the module's slot duration,
    /// which is a host configuration error, not a recoverable one. A zero
    /// slot duration is equally a contract violation.
    pub fn on_timestamp_set(&self, moment: u64, slot_duration: u64)
        requires
            self.well_formed(),
            slot_duration != 0,
            moment / slot_duration == self.spec_current_slot(),
    {
    }
}

/// The author index the digests point at: the first SPIN pre-runtime item's
/// slot, reduced modulo the authority-list length.
pub open spec fn spec_find_author_slot(digests: Seq<([u8; 4], Vec<u8>)>) -> Option<Slot>
    decreases digests.len(),
{
    if digests.len() == 0 {
        Option::None
    } else {
        if digests.first().0@ == spec_spin_engine_id() {
            spec_decode_u64(digests.first().1@)
        } else {
            spec_find_author_slot(digests.drop_first())
        }
    }
}

impl SpinState {
    /// Find the author of the current block from the (engine, payload)
    /// digests: the sealed slot's position in the authority rotation.
    /// A SPIN digest whose payload does not decode yields no author; a
    /// decodable one demands a non-empty authority list.
    pub fn find_author(&self, digests: &Vec<([u8; 4], Vec<u8>)>) -> (r: Option<u32>)
        requires
            self.well_formed(),
            spec_find_author_slot(digests@) is Some ==> self.spec_authorities().len() > 0,
        ensures
            r == match spec_find_author_slot(digests@) {
                Option::Some(slot) => Option::Some(
                    (slot % (self.spec_authorities().len() as u64)) as u32,
                ),
                Option::None => Option::<u32>::None,
            },
    {
        let n = digests.len();
        let ghost ds = digests@;
        proof {
            assert(ds.skip(0) =~= ds);
        }
        for i in 0..n
            invariant
                self.well_formed(),
                spec_find_author_slot(ds) is Some ==> self.spec_authorities().len() > 0,
                n == ds.len(),
                ds == digests@,
                spec_find_author_slot(ds) == spec_find_author_slot(ds.skip(i as int)),
        {
            proof {
                assert(ds.skip(i as int).first() == ds[i as int]);
                assert(ds.skip(i as int).drop_first() =~= ds.skip(i + 1));
            }
            let (id, data) = &digests[i];
            if engine_id_eq(id, &SPIN_ENGINE_ID) {
                proof {
                    assert(SPIN_ENGINE_ID@ =~= spec_spin_engine_id());
                }
                match decode_u64(data) {
                    Some(slot) => {
                        let author_index = slot % (self.authorities.len() as u64);
                        return Some(author_index as u32);
                    },
                    None => {
                        return None;
                    },
                }
            }
            proof {
                assert(SPIN_ENGINE_ID@ =~= spec_spin_engine_id());
            }
        }
        proof {
            assert(ds.skip(n as int) =~= Seq::<([u8; 4], Vec<u8>)>::empty());
        }
        None
    }
}

/// Maps an author index found by the digests back to the authority key at
/// that position.
pub struct FindAccountFromAuthorIndex;

impl FindAccountFromAuthorIndex {
    /// The authority key the digests point at, if the index is in range.
    pub fn find_author(state: &SpinState, digests: &Vec<([u8; 4], Vec<u8>)>) -> (r: Option<
        AuthorityId,
    >)
        requires
            state.well_formed(),
            spec_find_author_slot(digests@) is Some ==> state.spec_authorities().len() > 0,
        ensures
            match spec_find_author_slot(digests@) {
                Option::Some(slot) => ({
                    let i = (slot % (state.spec_authorities().len() as u64)) as int;
                    if 0 <= i < state.spec_authorities().len() {
                        r matches Option::Some(a) && a@ == state.spec_authorities()[i]@
                    } else {
                        r is None
                    }
                }),
                Option::None => r is None,
            },
    {
        let index = match state.find_author(digests) {
            Some(i) => i,
            None => {
                return None;
            },
        };
        if (index as usize) < state.authorities.len() {
            Some(state.authorities[index as usize].clone())
        } else {
            None
        }
    }
}

} // verus!
