//! Tests of the session tracker, the authoring worker's decisions, gas
//! metering, the configuration computations and the query extension surface.

use parity_scale_codec::Encode;
use spin_consensus::aura_session::{self, Event as SessionEvent};
use spin_consensus::configs::{
    AssetsBenchmarkHelper, BurnFeesAndTipToAuthor, SessionPeriodLength, ToAuthor,
};
use spin_consensus::digests::Digest;
use spin_consensus::gas::{
    calculate_for_block, check_execute_args, trap_cost, ExecArgsError, ExecLimits, GasVisitor,
    InstructionKind,
};
use spin_consensus::header::Header;
use spin_consensus::keystore::Keystore;
use spin_consensus::standalone::pre_digest;
use spin_consensus::worker::build_spin_worker;
use spin_consensus::calc::pre_mul;
use spin_consensus::import_queue::BlockOrigin;
use spin_consensus::xcq::{ExtensionImpl, SCTransferData};
use spin_consensus::{AuthorityId, CompatibilityMode, ConsensusError, SpinAuxData};

#[test]
fn session_increments() {
    let mut session_index: u64 = 0;
    let session_length: u64 = 3;

    assert_eq!(session_index, 0);
    aura_session::on_initialize(&mut session_index, 1, session_length);
    assert_eq!(session_index, 0);
    aura_session::on_initialize(&mut session_index, 2, session_length);
    assert_eq!(session_index, 0);
    let (event, _weight) = aura_session::on_initialize(&mut session_index, 3, session_length);
    assert_eq!(session_index, 1);

    assert_eq!(event, Some(SessionEvent::NewSession(1)));

    for i in 0..session_length {
        aura_session::on_initialize(&mut session_index, i, session_length);
    }
    assert_eq!(session_index, 2);
}

#[test]
fn worker_claims_and_seals() {
    let mut ks = Keystore::new();
    let public = ks.insert_seed(vec![1; 32]);
    let other: AuthorityId = vec![9; 32];
    let aux: SpinAuxData = (vec![public.clone(), other], 1);
    let worker = build_spin_worker(ks, false, true, CompatibilityMode::Disabled);

    let head = Header::new(1, vec![2; 32], vec![3; 32], vec![4; 32], Digest { logs: vec![] });
    assert_eq!(worker.claim_slot(&head, 0, &aux), Some(public.clone()));
    assert_eq!(worker.claim_slot(&head, 1, &aux), None);
    assert_eq!(worker.claim_slot(&head, 2, &aux), Some(public.clone()));

    assert_eq!(worker.authorities_len(&aux), Some(2));
    assert!(!worker.force_authoring());
    assert_eq!(worker.logging_target(), "spin");

    let digest_items = worker.pre_digest_data(7, &public);
    assert_eq!(digest_items.len(), 1);
    assert_eq!(digest_items[0].as_spin_pre_digest(), Some(7));

    let header = Header::new(
        2,
        vec![2; 32],
        vec![3; 32],
        vec![4; 32],
        Digest { logs: vec![pre_digest(0)] },
    );
    let header_hash = header.hash();
    let body = vec![vec![1, 2]];
    let block = worker
        .block_import_params(header, &header_hash, body.clone(), &public)
        .expect("the claimed key can seal");
    assert_eq!(block.origin, BlockOrigin::Own);
    assert_eq!(block.body, Some(body));
    assert_eq!(block.post_digests.len(), 1);
    assert!(block.post_digests[0].as_spin_seal().is_some());

    // Sealing with a key the keystore does not hold is fatal to the attempt.
    let header = Header::new(
        2,
        vec![2; 32],
        vec![3; 32],
        vec![4; 32],
        Digest { logs: vec![pre_digest(0)] },
    );
    let header_hash = header.hash();
    let stranger: AuthorityId = vec![8; 32];
    assert_eq!(
        worker
            .block_import_params(header, &header_hash, Vec::new(), &stranger)
            .err(),
        Some(ConsensusError::CannotSign)
    );
}

#[test]
fn worker_backoff_fails_open() {
    let ks = Keystore::new();
    let worker = build_spin_worker(ks, false, true, CompatibilityMode::Disabled);

    // A decodable chain-head slot delegates to the strategy.
    let head = Header::new(
        5,
        vec![2; 32],
        vec![3; 32],
        vec![4; 32],
        Digest { logs: vec![pre_digest(11)] },
    );
    let query = worker.should_backoff(13, &head).expect("the strategy is asked");
    assert_eq!(query.chain_head_number, 5);
    assert_eq!(query.chain_head_slot, 11);
    assert_eq!(query.slot, 13);

    // An undecodable pre-digest means: do not back off.
    let bare = Header::new(5, vec![2; 32], vec![3; 32], vec![4; 32], Digest { logs: vec![] });
    assert!(worker.should_backoff(13, &bare).is_none());

    // Without a strategy the question never arises.
    let ks = Keystore::new();
    let worker = build_spin_worker(ks, false, false, CompatibilityMode::Disabled);
    assert!(worker.should_backoff(13, &head).is_none());
}

#[test]
fn compatibility_mode_gates_initialization() {
    assert!(matches!(CompatibilityMode::default(), CompatibilityMode::Disabled));
    assert!(!CompatibilityMode::Disabled.initialize_block_needed(5));
    let mode = CompatibilityMode::UseInitializeBlock { until: 10 };
    assert!(mode.initialize_block_needed(9));
    assert!(!mode.initialize_block_needed(10));
    assert!(!mode.initialize_block_needed(11));

    let ks = Keystore::new();
    let worker = build_spin_worker(ks, false, false, mode);
    // Authoring on top of block 8 targets block 9, which is below the bound.
    assert_eq!(worker.aux_data_context(8), (9, true));
    assert_eq!(worker.aux_data_context(9), (10, false));
}

#[test]
fn gas_visitor_accumulates_per_block() {
    let mut v = GasVisitor::default();
    assert_eq!(v.take_block_cost(), None);

    v.add_32();
    v.add_64();
    v.ecalli();
    v.jump();
    assert_eq!(v.take_block_cost(), Some(4));
    // Taking twice yields nothing until another block ends.
    assert_eq!(v.take_block_cost(), None);

    v.sbrk();
    v.memset();
    v.fallthrough();
    assert_eq!(v.take_block_cost(), Some(3));

    v.invalid();
    assert_eq!(v.take_block_cost(), Some(1));

    v.add_32();
    v.jump_indirect();
    assert_eq!(v.take_block_cost(), Some(2));
}

#[test]
fn trap_cost_is_one() {
    assert_eq!(trap_cost(), 1);
}

#[test]
fn session_period_spans_thirty_tenures() {
    assert_eq!(SessionPeriodLength::get(4), 120);
    assert_eq!(SessionPeriodLength::get(1000), 30_000);
    assert_eq!(SessionPeriodLength::get(u32::MAX), (u32::MAX as u64) * 30);
}

#[test]
fn fees_burn_and_tips_go_to_the_author() {
    let author = Some(vec![1u8; 32]);

    assert_eq!(ToAuthor::on_nonzero_unbalanced(50, author.clone()), Some((vec![1; 32], 50)));
    assert_eq!(ToAuthor::on_nonzero_unbalanced(50, None), None);

    let (burned, credited) = BurnFeesAndTipToAuthor::on_unbalanceds(Some(100), Some(7), author.clone());
    assert_eq!(burned, 100);
    assert_eq!(credited, Some((vec![1; 32], 7)));

    let (burned, credited) = BurnFeesAndTipToAuthor::on_unbalanceds(Some(100), Some(0), author.clone());
    assert_eq!(burned, 100);
    assert_eq!(credited, None);

    let (burned, credited) = BurnFeesAndTipToAuthor::on_unbalanceds(Some(100), None, author.clone());
    assert_eq!(burned, 100);
    assert_eq!(credited, None);

    let (burned, credited) = BurnFeesAndTipToAuthor::on_unbalanceds(None, Some(7), author);
    assert_eq!(burned, 0);
    assert_eq!(credited, None);
}

#[test]
fn asset_id_parameter_offsets_from_genesis() {
    assert_eq!(AssetsBenchmarkHelper::create_asset_id_parameter(None, 5), 5);
    assert_eq!(AssetsBenchmarkHelper::create_asset_id_parameter(Some(100), 5), 105);
}

#[test]
fn extension_surface() {
    assert!(ExtensionImpl::has_extension(0));
    assert!(ExtensionImpl::has_extension(1));
    assert!(!ExtensionImpl::has_extension(2));
    assert!(!ExtensionImpl::has_extension(u64::MAX));

    let who = vec![1u8; 32];
    assert_eq!(ExtensionImpl::balance(0, &who), 100);
    assert_eq!(ExtensionImpl::transfer(0, &who, 0, &who), 100);
    assert_eq!(ExtensionImpl::total_supply(0), 200);
}

#[test]
fn transfer_data_codec_matches_scale() {
    let source = vec![1u8; 32];
    let dest = vec![2u8; 32];
    let order = SCTransferData::new(7, source.clone(), dest.clone());
    let encoded = order.encode();

    // The wire shape is the SCALE encoding of (u64, [u8; 32], [u8; 32]).
    let mut source_arr = [0u8; 32];
    source_arr.copy_from_slice(&source);
    let mut dest_arr = [0u8; 32];
    dest_arr.copy_from_slice(&dest);
    let scale = (7u64, source_arr, dest_arr).encode();
    assert_eq!(encoded, scale);

    let decoded = SCTransferData::decode(&encoded).expect("the order decodes");
    assert_eq!(decoded.encode(), encoded);

    assert!(SCTransferData::decode(&vec![1; 71]).is_none());
}

#[test]
fn execution_requests_are_bounds_checked() {
    let limits = ExecLimits {
        max_gas_limit: 20_000,
        min_gas_price: 10,
        min_storage_deposit_limit: 100,
        max_user_data_len: 64,
    };
    assert_eq!(check_execute_args(64, 20_000, 100, 10, &limits), Ok(()));
    assert_eq!(
        check_execute_args(0, 20_001, 100, 10, &limits),
        Err(ExecArgsError::GasLimitIsTooHigh)
    );
    assert_eq!(
        check_execute_args(0, 20_000, 100, 9, &limits),
        Err(ExecArgsError::GasPriceIsTooLow)
    );
    assert_eq!(
        check_execute_args(0, 20_000, 99, 10, &limits),
        Err(ExecArgsError::StorageDepositLimitIsTooLow)
    );
    assert_eq!(
        check_execute_args(65, 20_000, 100, 10, &limits),
        Err(ExecArgsError::UserDataIsTooLarge)
    );
}

#[test]
fn block_costs_charge_to_the_first_block_end() {
    let plain = InstructionKind::Plain;
    let block_end = InstructionKind::BlockEnd;
    // Three instructions up to and including the jump cost three units.
    assert_eq!(calculate_for_block(&vec![plain, plain, block_end, plain]), (3, false));
    // A block end alone costs one.
    assert_eq!(calculate_for_block(&vec![block_end]), (1, false));
    // A stream that never ends a block is closed by an implicit trap.
    assert_eq!(calculate_for_block(&vec![plain, plain]), (3, false));
    // An empty stream started out of bounds and costs the implicit trap.
    assert_eq!(calculate_for_block(&Vec::new()), (1, true));
}

#[test]
fn pre_mul_picks_product_quotient_or_zero() {
    assert_eq!(pre_mul(6, 3), 18);
    assert_eq!(pre_mul(8, 2), 16);
    assert_eq!(pre_mul(3, 6), 0);
    assert_eq!(pre_mul(6, 6), 1);
    assert_eq!(pre_mul(0, 5), 0);
    assert_eq!(pre_mul(0, 0), 0);
}

