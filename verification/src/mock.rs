//! Test utilities for the SPIN module: a disabled-validator registry with
//! explicit control, and a harness that builds a genesis state, runs a test
//! against it, and checks the module's state invariants afterwards.

use vstd::prelude::*;

use crate::codec::encode_u64;
use crate::digests::Digest;
use crate::pallet::{DisabledValidators, SpinState};
use crate::{AuthorityId, SessionLength};

verus! {

/// The session length the test genesis starts with.
pub const DEFAULT_SESSION_LENGTH: SessionLength = 4;

/// The authority-list bound the test genesis is configured with.
pub const MOCK_MAX_AUTHORITIES: u32 = 10;

/// Whether a sorted list of indices contains one.
pub open spec fn spec_index_listed(indices: Seq<u32>, index: u32) -> bool {
    exists|i: int| 0 <= i < indices.len() && indices[i] == index
}

/// A disabled-validator registry under the test's control: a sorted list of
/// disabled indices.
pub struct MockDisabledValidators {
    disabled: Vec<u32>,
}

impl MockDisabledValidators {
    /// The indices are strictly increasing: sorted, without duplicates.
    pub closed spec fn well_formed(&self) -> bool {
        forall|i: int, j: int|
            0 <= i < j < self.disabled@.len() ==> self.disabled@[i] < self.disabled@[j]
    }

    /// The disabled indices.
    pub closed spec fn spec_disabled(&self) -> Seq<u32> {
        self.disabled@
    }

    /// No validator disabled.
    pub fn new() -> (r: MockDisabledValidators)
        ensures
            r.well_formed(),
            r.spec_disabled() == Seq::<u32>::empty(),
    {
        let r = MockDisabledValidators { disabled: Vec::new() };
        proof {
            assert(r.spec_disabled() =~= Seq::<u32>::empty());
        }
        r
    }

    /// Disable the validator at this index. Keeps the list sorted; disabling
    /// twice changes nothing.
    pub fn disable_validator(&mut self, index: u32)
        requires
            old(self).well_formed(),
        ensures
            final(self).well_formed(),
            forall|x: u32|
                spec_index_listed(final(self).spec_disabled(), x) == (spec_index_listed(
                    old(self).spec_disabled(),
                    x,
                ) || x == index),
    {
        let n = self.disabled.len();
        let mut pos: usize = 0;
        while pos < n && self.disabled[pos] < index
            invariant
                self == old(self),
                self.well_formed(),
                n == self.disabled@.len(),
                pos <= n,
                forall|j: int| 0 <= j < pos ==> self.disabled@[j] < index,
            decreases n - pos,
        {
            pos += 1;
        }
        if pos < n && self.disabled[pos] == index {
            proof {
                assert(spec_index_listed(self.spec_disabled(), index));
            }
            return;
        }
        let ghost before = self.disabled@;
        let insert_at = pos;
        proof {
            assert(forall|j: int| 0 <= j < insert_at ==> before[j] < index);
            assert forall|j: int| insert_at <= j < before.len() implies before[j] > index by {
                assert(before[insert_at as int] >= index);
                assert(before[insert_at as int] != index);
                if j > insert_at {
                    assert(before[insert_at as int] < before[j]);
                }
            }
        }
        self.disabled.insert(insert_at, index);
        proof {
            assert forall|i2: int, j2: int| 0 <= i2 < j2 < self.disabled@.len() implies self.disabled@[i2]
                < self.disabled@[j2] by {
                let a = if i2 < insert_at {
                    before[i2]
                } else if i2 == insert_at {
                    index
                } else {
                    before[i2 - 1]
                };
                assert(self.disabled@[i2] == a);
                let b = if j2 < insert_at {
                    before[j2]
                } else if j2 == insert_at {
                    index
                } else {
                    before[j2 - 1]
                };
                assert(self.disabled@[j2] == b);
            }
            assert forall|x: u32| spec_index_listed(self.spec_disabled(), x) == (spec_index_listed(
                before,
                x,
            ) || x == index) by {
                if spec_index_listed(self.spec_disabled(), x) {
                    let i = choose|i: int|
                        0 <= i < self.disabled@.len() && self.disabled@[i] == x;
                    if i < insert_at {
                        assert(before[i] == x);
                    } else if i > insert_at {
                        assert(before[i - 1] == x);
                    }
                }
                if spec_index_listed(before, x) {
                    let i = choose|i: int| 0 <= i < before.len() && before[i] == x;
                    if i < insert_at {
                        assert(self.disabled@[i] == x);
                    } else {
                        assert(self.disabled@[i + 1] == x);
                    }
                }
                if x == index {
                    assert(self.disabled@[insert_at as int] == x);
                }
            }
        }
    }

    /// The disabled indices, as a list.
    pub fn disabled_validators(&self) -> (r: Vec<u32>)
        ensures
            r@ == self.spec_disabled(),
    {
        let n = self.disabled.len();
        let mut r: Vec<u32> = Vec::new();
        for i in 0..n
            invariant
                n == self.disabled@.len(),
                r@ =~= self.disabled@.take(i as int),
        {
            r.push(self.disabled[i]);
        }
        proof {
            assert(self.disabled@.take(n as int) =~= self.disabled@);
        }
        r
    }
}

impl DisabledValidators for MockDisabledValidators {
    open spec fn spec_is_disabled(&self, index: u32) -> bool {
        spec_index_listed(self.spec_disabled(), index)
    }

    fn is_disabled(&self, index: u32) -> (r: bool) {
        let n = self.disabled.len();
        for i in 0..n
            invariant
                n == self.disabled@.len(),
                forall|j: int| 0 <= j < i ==> self.disabled@[j] != index,
        {
            if self.disabled[i] == index {
                return true;
            }
        }
        false
    }
}

/// Build the genesis state for a list of small-integer authority seeds: each
/// seed becomes an eight-byte authority key.
pub fn build_ext(authorities: Vec<u64>) -> (r: SpinState)
    requires
        authorities@.len() <= MOCK_MAX_AUTHORITIES,
    ensures
        r.well_formed(),
        r.spec_current_slot() == 0,
        r.spec_session_length() == DEFAULT_SESSION_LENGTH,
        r.spec_authorities().len() == authorities@.len(),
        forall|i: int| 0 <= i < authorities@.len() ==> (#[trigger] r.spec_authorities()[i])@
            == crate::codec::u64_le_bytes(authorities@[i]),
{
    let n = authorities.len();
    let mut keys: Vec<AuthorityId> = Vec::new();
    for i in 0..n
        invariant
            n == authorities@.len(),
            keys@.len() == i,
            forall|j: int| 0 <= j < i ==> (#[trigger] keys@[j])@ == crate::codec::u64_le_bytes(
                authorities@[j],
            ),
    {
        keys.push(encode_u64(authorities[i]));
    }
    SpinState::new(keys, MOCK_MAX_AUTHORITIES, DEFAULT_SESSION_LENGTH)
}

/// What the harness's closing invariant check accepts, with no digest in
/// play and no validator disabled: the module's try-state verdict reduces to
/// the current slot being incrementable and the authority list non-empty.
pub open spec fn spec_try_state_holds(s: SpinState) -> bool {
    &&& s.spec_current_slot() < u64::MAX
    &&& s.spec_authorities().len() > 0
}

/// Build a genesis state for the given authority seeds, hand it to the test
/// exactly once, and check the module's state invariants afterwards — with no
/// digest in play and no validator disabled. The state the test produced
/// comes back exactly when it satisfies the invariants; one that violates
/// them is the error.
pub fn build_ext_and_execute_test<F: FnOnce(SpinState) -> SpinState>(
    authorities: Vec<u64>,
    test: F,
) -> (r: Result<SpinState, &'static str>)
    requires
        authorities@.len() <= MOCK_MAX_AUTHORITIES,
        forall|s: SpinState| s.well_formed() ==> call_requires(test, (s,)),
        forall|s: SpinState, t: SpinState| call_ensures(test, (s,), t) ==> t.well_formed(),
    ensures
        r matches Result::Ok(s) ==> s.well_formed(),
        exists|genesis: SpinState, tested: SpinState|
            {
                &&& genesis.well_formed()
                &&& genesis.spec_current_slot() == 0
                &&& genesis.spec_session_length() == DEFAULT_SESSION_LENGTH
                &&& genesis.spec_authorities().len() == authorities@.len()
                &&& (forall|i: int|
                    0 <= i < authorities@.len() ==> (#[trigger] genesis.spec_authorities()[i])@
                        == crate::codec::u64_le_bytes(authorities@[i]))
                &&& #[trigger] call_ensures(test, (genesis,), tested)
                &&& match r {
                    Result::Ok(s) => s == tested && spec_try_state_holds(tested),
                    Result::Err(_) => !spec_try_state_holds(tested),
                }
            },
{
    let state = build_ext(authorities);
    let ghost genesis = state;
    let state = test(state);
    let disabled = MockDisabledValidators::new();
    let digest = Digest { logs: Vec::new() };
    proof {
        assert(forall|x: u32| !spec_index_listed(disabled.spec_disabled(), x));
        assert(digest.logs@ =~= Seq::<crate::digests::DigestItem>::empty());
    }
    match state.do_try_state(&digest, &disabled, false) {
        Ok(()) => {
            proof {
                assert(call_ensures(test, (genesis,), state));
                assert(spec_try_state_holds(state));
            }
            Ok(state)
        },
        Err(e) => {
            proof {
                assert(call_ensures(test, (genesis,), state));
                assert(!spec_try_state_holds(state));
            }
            Err(e)
        },
    }
}

} // verus!
