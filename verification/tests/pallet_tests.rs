//! Tests of the on-chain SPIN module's state transitions.

use spin_consensus::digests::{Digest, DigestItem};
use spin_consensus::mock::{
    build_ext_and_execute_test, MockDisabledValidators, DEFAULT_SESSION_LENGTH,
};
use spin_consensus::pallet::{
    authority_lists_eq, DisabledValidators, Error, Event, FindAccountFromAuthorIndex,
    MinimumPeriodTimesTwo, SpinState,
};
use spin_consensus::{AuthorityId, SPIN_ENGINE_ID};

fn digest_with_slot(slot: u64) -> Digest {
    Digest { logs: vec![DigestItem::spin_pre_digest(slot)] }
}

fn keys(ids: &[u8]) -> Vec<AuthorityId> {
    ids.iter().map(|i| vec![*i; 32]).collect()
}

#[test]
fn initial_values() {
    let result = build_ext_and_execute_test(vec![0, 1, 2, 3], |state: SpinState| {
        assert_eq!(state.current_slot(), 0u64);
        assert_eq!(state.authorities_len(), 4);
        state
    });
    assert!(result.is_ok());
}

#[test]
fn session_length_works() {
    let result = build_ext_and_execute_test(vec![0, 1, 2, 3], |mut state: SpinState| {
        assert_eq!(state.session_length(), DEFAULT_SESSION_LENGTH);

        let new_session_length = 1000;
        assert!(state.set_session_length(new_session_length).is_ok());
        assert_eq!(state.session_length(), new_session_length);
        state
    });
    assert!(result.is_ok());
}

#[test]
fn session_length_zero_is_rejected() {
    let result = build_ext_and_execute_test(vec![0, 1, 2, 3], |mut state: SpinState| {
        assert_eq!(state.set_session_length(0), Err(Error::SessionLengthZero));
        assert_eq!(state.session_length(), DEFAULT_SESSION_LENGTH);
        state
    });
    assert!(result.is_ok());
}

#[test]
fn set_session_length_deposits_event() {
    let result = build_ext_and_execute_test(vec![0, 1], |mut state: SpinState| {
        assert_eq!(state.set_session_length(7), Ok(Event::NewSessionLength(7)));
        state
    });
    assert!(result.is_ok());
}

#[test]
fn pallet_can_allow_unchanged_slot() {
    let result = build_ext_and_execute_test(vec![0, 1, 2, 3], |mut state: SpinState| {
        let pre_digest = digest_with_slot(1);
        let disabled = MockDisabledValidators::new();

        // With multiple blocks per slot allowed, initializing the block with
        // the same slot a second time is fine.
        state.on_initialize(&pre_digest, &disabled, true);
        state.on_initialize(&pre_digest, &disabled, true);
        assert_eq!(state.current_slot(), 1);
        state
    });
    assert!(result.is_ok());
}

#[test]
fn on_initialize_without_digest_reads_only() {
    let result = build_ext_and_execute_test(vec![0, 1, 2, 3], |mut state: SpinState| {
        let disabled = MockDisabledValidators::new();
        let weight = state.on_initialize(&Digest { logs: vec![] }, &disabled, false);
        assert_eq!(weight, (1, 0));
        assert_eq!(state.current_slot(), 0);
        state
    });
    assert!(result.is_ok());
}

#[test]
fn current_slot_from_digests_reads_first_spin_item() {
    let mut digest = digest_with_slot(5);
    digest.logs.insert(0, DigestItem::PreRuntime([1, 2, 3, 4], vec![8; 8]));
    assert_eq!(SpinState::current_slot_from_digests(&digest), Some(5));

    // An undecodable payload under the SPIN tag yields nothing, even with a
    // decodable item after it.
    let broken = Digest {
        logs: vec![
            DigestItem::PreRuntime(SPIN_ENGINE_ID, vec![1, 2]),
            DigestItem::spin_pre_digest(9),
        ],
    };
    assert_eq!(SpinState::current_slot_from_digests(&broken), None);

    assert_eq!(SpinState::current_slot_from_digests(&Digest { logs: vec![] }), None);
}

#[test]
fn change_authorities_deposits_consensus_log() {
    let mut state = SpinState::new(keys(&[1, 2]), 10, 4);
    let next = keys(&[3, 4, 5]);
    let item = state.change_authorities(next.clone()).expect("a non-empty change deposits a log");
    match item {
        DigestItem::Consensus(id, _) => assert_eq!(id, SPIN_ENGINE_ID),
        _ => panic!("the authorities change is a consensus digest item"),
    }
    assert_eq!(state.authorities_len(), 3);
    assert!(state.is_member(&next[0]));
    assert!(!state.is_member(&vec![1; 32]));

    // An empty change is ignored.
    assert!(state.change_authorities(Vec::new()).is_none());
    assert_eq!(state.authorities_len(), 3);
}

#[test]
fn on_new_session_rotates_and_truncates() {
    let mut state = SpinState::new(keys(&[1, 2]), 3, 4);

    // Unchanged sessions and identical lists change nothing.
    assert!(state.on_new_session(false, keys(&[7, 8])).is_none());
    assert_eq!(state.authorities_len(), 2);
    assert!(state.on_new_session(true, keys(&[1, 2])).is_none());
    assert_eq!(state.authorities_len(), 2);

    // An oversize changed list is truncated to the configured bound.
    let item = state.on_new_session(true, keys(&[4, 5, 6, 7, 8]));
    assert!(item.is_some());
    assert_eq!(state.authorities_len(), 3);
    assert!(state.is_member(&vec![6; 32]));
    assert!(!state.is_member(&vec![7; 32]));
}

#[test]
fn on_genesis_session_initializes() {
    let mut state = SpinState::new(Vec::new(), 10, 4);
    state.on_genesis_session(keys(&[1, 2, 3]));
    assert_eq!(state.authorities_len(), 3);
}

#[test]
fn on_disabled_deposits_consensus_log() {
    let state = SpinState::new(keys(&[1, 2]), 10, 4);
    match state.on_disabled(1) {
        DigestItem::Consensus(id, payload) => {
            assert_eq!(id, SPIN_ENGINE_ID);
            assert_eq!(payload[0], 2);
        },
        _ => panic!("disabling deposits a consensus digest item"),
    }
}

#[test]
fn find_author_maps_slot_to_index() {
    let state = SpinState::new(keys(&[1, 2, 3]), 10, 4);
    let digests = vec![(SPIN_ENGINE_ID, spin_consensus::codec::encode_u64(7))];
    assert_eq!(state.find_author(&digests), Some(1));

    // Items of other engines are skipped.
    let digests = vec![
        ([9, 9, 9, 9], vec![1; 8]),
        (SPIN_ENGINE_ID, spin_consensus::codec::encode_u64(5)),
    ];
    assert_eq!(state.find_author(&digests), Some(2));

    // An undecodable SPIN payload means no author.
    let digests = vec![(SPIN_ENGINE_ID, vec![1, 2])];
    assert_eq!(state.find_author(&digests), None);

    assert_eq!(state.find_author(&Vec::new()), None);

    // The account-mapping layer returns the key at that index.
    let digests = vec![(SPIN_ENGINE_ID, spin_consensus::codec::encode_u64(7))];
    assert_eq!(FindAccountFromAuthorIndex::find_author(&state, &digests), Some(vec![2; 32]));
}

#[test]
fn do_try_state_checks_invariants() {
    let disabled = MockDisabledValidators::new();
    let empty_digest = Digest { logs: vec![] };

    let healthy = SpinState::new(keys(&[1, 2]), 10, 4);
    assert!(healthy.do_try_state(&empty_digest, &disabled, false).is_ok());

    let no_authorities = SpinState::new(Vec::new(), 10, 4);
    assert!(no_authorities.do_try_state(&empty_digest, &disabled, false).is_err());

    // The maximal slot cannot be incremented further unless multiple blocks
    // per slot are allowed.
    let at_max = digest_with_slot(u64::MAX);
    let mut state = SpinState::new(keys(&[1, 2]), 10, 4);
    state.on_initialize(&at_max, &disabled, false);
    assert!(state.do_try_state(&empty_digest, &disabled, false).is_err());
    assert!(state.do_try_state(&empty_digest, &disabled, true).is_ok());

    // A disabled current author is a violation.
    let mut disabled_set = MockDisabledValidators::new();
    disabled_set.disable_validator(1);
    let state = SpinState::new(keys(&[1, 2]), 10, 4);
    assert!(state.do_try_state(&digest_with_slot(1), &disabled_set, false).is_err());
    assert!(state.do_try_state(&digest_with_slot(2), &disabled_set, false).is_ok());
}

#[test]
fn mock_disabled_validators_stay_sorted() {
    let mut disabled = MockDisabledValidators::new();
    disabled.disable_validator(5);
    disabled.disable_validator(1);
    disabled.disable_validator(3);
    disabled.disable_validator(3);
    assert_eq!(disabled.disabled_validators(), vec![1, 3, 5]);
    assert!(disabled.is_disabled(3));
    assert!(!disabled.is_disabled(2));
}

#[test]
fn authority_lists_eq_compares_keys() {
    assert!(authority_lists_eq(&keys(&[1, 2]), &keys(&[1, 2])));
    assert!(!authority_lists_eq(&keys(&[1, 2]), &keys(&[2, 1])));
    assert!(!authority_lists_eq(&keys(&[1]), &keys(&[1, 2])));
}

#[test]
fn minimum_period_times_two_saturates() {
    assert_eq!(MinimumPeriodTimesTwo::get(3000), 6000);
    assert_eq!(MinimumPeriodTimesTwo::get(u64::MAX), u64::MAX);
}

#[test]
fn aux_data_reflects_state() {
    let mut state = SpinState::new(keys(&[1, 2, 3]), 10, 4);
    state.set_session_length(9).unwrap();
    let (authorities, session_length) = state.aux_data();
    assert_eq!(session_length, 9);
    assert_eq!(authorities, keys(&[1, 2, 3]));
}

#[test]
fn initialize_authorities_ignores_empty_input() {
    // An empty input is a no-op even on an initialized list; a non-empty
    // input initializes an empty one.
    let mut state = SpinState::new(keys(&[1, 2]), 10, 4);
    state.initialize_authorities(Vec::new());
    assert_eq!(state.authorities_len(), 2);

    let mut fresh = SpinState::new(Vec::new(), 10, 4);
    fresh.initialize_authorities(keys(&[1, 2, 3]));
    assert_eq!(fresh.authorities_len(), 3);
}

