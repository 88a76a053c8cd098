//! Tests of the slot/author mapping and the header/seal check.

use spin_consensus::digests::{Digest, DigestItem};
use spin_consensus::header::Header;
use spin_consensus::keystore::Keystore;
use spin_consensus::standalone::{
    check_header_slot_and_seal, claim_slot, find_pre_digest, pre_digest, seal, slot_author,
    PreDigestLookupError, SealVerificationError,
};
use spin_consensus::{AuthorityId, SpinAuxData};
use sp_core::crypto::Pair as SpCorePair;

fn dummy_authorities(n: u8) -> Vec<AuthorityId> {
    (0..n).map(|i| vec![i + 1; 32]).collect()
}

fn keystore_with_seed(seed_byte: u8) -> (Keystore, AuthorityId) {
    let mut ks = Keystore::new();
    let public = ks.insert_seed(vec![seed_byte; 32]);
    (ks, public)
}

fn header_with_slot(number: u64, slot: u64) -> Header {
    Header::new(
        number,
        vec![2; 32],
        vec![3; 32],
        vec![4; 32],
        Digest { logs: vec![pre_digest(slot)] },
    )
}

fn sealed_header(pre: &Header, ks: &Keystore, public: &AuthorityId) -> Header {
    let hash = pre.hash();
    let seal_item = seal(&hash, public, ks).expect("key is in the keystore");
    let mut sealed = pre.clone();
    sealed.digest.logs.push(seal_item);
    sealed
}

#[test]
fn test_claim_slot_session_handling() {
    let authorities = dummy_authorities(5);
    let session_length = 3;

    let slot = 0;
    assert_eq!(slot_author(slot, session_length, &authorities), Some(&authorities[0]));
    let slot = 1;
    assert_eq!(slot_author(slot, session_length, &authorities), Some(&authorities[0]));
    let slot = 2;
    assert_eq!(slot_author(slot, session_length, &authorities), Some(&authorities[0]));
    let slot = 3;
    assert_eq!(slot_author(slot, session_length, &authorities), Some(&authorities[1]));
    let slot = 4;
    assert_eq!(slot_author(slot, session_length, &authorities), Some(&authorities[1]));

    let slot = 30;
    assert_eq!(slot_author(slot, session_length, &authorities), Some(&authorities[0]));

    let slot = 311;
    // session_idx is 103, which is 3 % 5 = 3
    assert_eq!(slot_author(slot, session_length, &authorities), Some(&authorities[3]));

    let slot = u64::MAX;
    // session_idx is 6148914691236517205, which is 0 % 5 = 0
    assert_eq!(slot_author(slot, session_length, &authorities), Some(&authorities[0]));
}

#[test]
#[should_panic]
fn test_claim_slot_session_handling_zero_session_length() {
    let authorities = dummy_authorities(5);
    let session_length = 0;

    let slot = 0;
    slot_author(slot, session_length, &authorities);
}

#[test]
fn slot_author_fixture_five_authorities() {
    // 5 authorities, session_length = 3: slots 0,1,2 belong to authority 0,
    // slots 3,4,5 to authority 1, slot 30 wraps to authority 0 (session 10 % 5),
    // slot 311 to authority 3 (session 103 % 5), and u64::MAX to authority 0
    // (session 6148914691236517205 % 5).
    let authorities = dummy_authorities(5);
    for slot in [0u64, 1, 2] {
        assert_eq!(slot_author(slot, 3, &authorities), Some(&authorities[0]));
    }
    for slot in [3u64, 4, 5] {
        assert_eq!(slot_author(slot, 3, &authorities), Some(&authorities[1]));
    }
    assert_eq!(slot_author(30, 3, &authorities), Some(&authorities[0]));
    assert_eq!(slot_author(311, 3, &authorities), Some(&authorities[3]));
    assert_eq!(slot_author(u64::MAX, 3, &authorities), Some(&authorities[0]));
}

#[test]
fn slot_author_empty_authorities_is_none() {
    // The list is consulted before the session length: with no authorities
    // the answer is None for every slot and every session length, zero
    // included.
    let authorities: Vec<AuthorityId> = Vec::new();
    for slot in [0u64, 1, 7, 1000, u64::MAX] {
        assert_eq!(slot_author(slot, 3, &authorities), None);
        assert_eq!(slot_author(slot, 0, &authorities), None);
    }
}

#[test]
fn find_pre_digest_demands_a_pre_digest_at_every_number() {
    // A well-formed header carries exactly one pre-digest, the genesis
    // header included: an empty digest log is NoDigestFound at number zero
    // too, and a genesis header with a pre-digest reads it like any other.
    let bare = Header::new(0, vec![2; 32], vec![3; 32], vec![4; 32], Digest { logs: vec![] });
    assert_eq!(find_pre_digest(&bare), Err(PreDigestLookupError::NoDigestFound));
    let genesis = Header::new(
        0,
        vec![2; 32],
        vec![3; 32],
        vec![4; 32],
        Digest { logs: vec![pre_digest(7)] },
    );
    assert_eq!(find_pre_digest(&genesis), Ok(7));
}

#[test]
fn find_pre_digest_ignores_other_engines() {
    let mut header = header_with_slot(5, 42);
    header
        .digest
        .logs
        .insert(0, DigestItem::PreRuntime([1, 2, 3, 4], vec![9; 8]));
    header.digest.logs.push(DigestItem::Consensus([5, 6, 7, 8], vec![1]));
    assert_eq!(find_pre_digest(&header), Ok(42));
}

#[test]
fn find_pre_digest_errors() {
    let empty = Header::new(1, vec![2; 32], vec![3; 32], vec![4; 32], Digest { logs: vec![] });
    assert_eq!(find_pre_digest(&empty), Err(PreDigestLookupError::NoDigestFound));

    let mut twice = header_with_slot(1, 7);
    twice.digest.logs.push(pre_digest(8));
    assert_eq!(find_pre_digest(&twice), Err(PreDigestLookupError::MultipleHeaders));
}

#[test]
fn seal_and_check_roundtrip_keeps_pre_hash() {
    // The round trip: seal a pre-header, verify the sealed header, and the
    // returned pre-header hashes to the value that was signed.
    let (ks, public) = keystore_with_seed(1);
    let authorities = vec![public.clone()];
    let aux: SpinAuxData = (authorities, 3);
    let slot = 4;
    let pre = header_with_slot(1, slot);
    let pre_hash = pre.hash();
    let sealed = sealed_header(&pre, &ks, &public);
    assert_ne!(sealed.hash(), pre_hash, "sealing must change the hash");

    let (checked_pre, checked_slot, seal_item) = match check_header_slot_and_seal(slot, sealed, &aux)
    {
        Ok(checked) => checked,
        Err(_) => panic!("the sealed header verifies"),
    };
    assert_eq!(checked_slot, slot);
    assert_eq!(checked_pre.hash(), pre_hash);
    assert!(seal_item.as_spin_seal().is_some());
}

#[test]
fn check_header_unsealed() {
    let (_, public) = keystore_with_seed(1);
    let aux: SpinAuxData = (vec![public], 3);
    let header = Header::new(1, vec![2; 32], vec![3; 32], vec![4; 32], Digest { logs: vec![] });
    match check_header_slot_and_seal(10, header, &aux) {
        Err(SealVerificationError::Unsealed) => {},
        _ => panic!("an empty digest log means the header is unsealed"),
    }
}

#[test]
fn check_header_bad_seal() {
    let (_, public) = keystore_with_seed(1);
    let aux: SpinAuxData = (vec![public], 3);
    let mut header = header_with_slot(1, 4);
    // Too short for a signature, so the codec does not recognize it.
    header.digest.logs.push(DigestItem::Seal([115, 112, 105, 110], vec![0; 10]));
    match check_header_slot_and_seal(10, header, &aux) {
        Err(SealVerificationError::BadSeal) => {},
        _ => panic!("a malformed seal must be rejected as BadSeal"),
    }
}

#[test]
fn check_header_pre_digest_errors_independent_of_seal() {
    // Multiple pre-digests and zero pre-digests are rejected after the seal
    // is popped, whatever the seal's signature is worth.
    let (_, public) = keystore_with_seed(1);
    let aux: SpinAuxData = (vec![public], 3);

    let mut twice = header_with_slot(1, 4);
    twice.digest.logs.push(pre_digest(5));
    twice.digest.logs.push(DigestItem::Seal([115, 112, 105, 110], vec![7; 64]));
    match check_header_slot_and_seal(10, twice, &aux) {
        Err(SealVerificationError::InvalidPreDigest(PreDigestLookupError::MultipleHeaders)) => {},
        _ => panic!("two pre-digests must be rejected as MultipleHeaders"),
    }

    let mut none = Header::new(1, vec![2; 32], vec![3; 32], vec![4; 32], Digest { logs: vec![] });
    none.digest.logs.push(DigestItem::Seal([115, 112, 105, 110], vec![7; 64]));
    match check_header_slot_and_seal(10, none, &aux) {
        Err(SealVerificationError::InvalidPreDigest(PreDigestLookupError::NoDigestFound)) => {},
        _ => panic!("zero pre-digests must be rejected as NoDigestFound"),
    }
}

#[test]
fn check_header_slot_author_not_found() {
    let (ks, public) = keystore_with_seed(1);
    let pre = header_with_slot(1, 4);
    let sealed = sealed_header(&pre, &ks, &public);
    let empty_aux: SpinAuxData = (Vec::new(), 3);
    match check_header_slot_and_seal(10, sealed, &empty_aux) {
        Err(SealVerificationError::SlotAuthorNotFound) => {},
        _ => panic!("an empty authority list leaves no author to check against"),
    }
}

#[test]
fn check_header_deferred_restores_seal() {
    // A header whose slot is in the future is deferred with its seal intact,
    // and verifying the very same header later succeeds.
    let (ks, public) = keystore_with_seed(1);
    let aux: SpinAuxData = (vec![public.clone()], 3);
    let slot = 20;
    let pre = header_with_slot(1, slot);
    let sealed = sealed_header(&pre, &ks, &public);
    let n_logs = sealed.digest.logs.len();

    let restored = match check_header_slot_and_seal(10, sealed, &aux) {
        Err(SealVerificationError::Deferred(h, s)) => {
            assert_eq!(s, slot);
            h
        },
        _ => panic!("a slot beyond slot_now must defer"),
    };
    assert_eq!(restored.digest.logs.len(), n_logs);
    assert!(restored.digest.logs.last().unwrap().as_spin_seal().is_some());

    match check_header_slot_and_seal(slot, restored, &aux) {
        Ok((_, s, _)) => assert_eq!(s, slot),
        _ => panic!("the restored header must verify once the slot is due"),
    }
}

#[test]
fn check_header_rejection_is_idempotent() {
    // Rejections carry no hidden state: re-verifying the same content fails
    // the same way.
    let (ks_b, public_b) = keystore_with_seed(2);
    let (_, public_a) = keystore_with_seed(1);
    let aux: SpinAuxData = (vec![public_a], 1);
    let pre = header_with_slot(1, 0);
    let sealed = sealed_header(&pre, &ks_b, &public_b);

    for _ in 0..2 {
        match check_header_slot_and_seal(10, sealed.clone(), &aux) {
            Err(SealVerificationError::BadSignature) => {},
            _ => panic!("a signature by the wrong author must fail as BadSignature, every time"),
        }
    }
}

#[test]
fn end_to_end_scenario_three_authorities() {
    // Authorities [A, B, C] with session_length = 1: slot 0 is claimable only
    // by A's keystore; a header sealed by B for slot 0 fails BadSignature
    // against expected author A; B's valid seal for slot 1 checks out.
    let (ks_a, public_a) = keystore_with_seed(10);
    let (ks_b, public_b) = keystore_with_seed(11);
    let (_ks_c, public_c) = keystore_with_seed(12);
    let aux: SpinAuxData = (vec![public_a.clone(), public_b.clone(), public_c.clone()], 1);

    assert_eq!(claim_slot(0, &aux, &ks_a), Some(public_a.clone()));
    assert_eq!(claim_slot(0, &aux, &ks_b), None);
    assert_eq!(claim_slot(1, &aux, &ks_b), Some(public_b.clone()));
    assert_eq!(claim_slot(2, &aux, &ks_a), None);

    let pre0 = header_with_slot(1, 0);
    let sealed_by_b = sealed_header(&pre0, &ks_b, &public_b);
    match check_header_slot_and_seal(5, sealed_by_b, &aux) {
        Err(SealVerificationError::BadSignature) => {},
        _ => panic!("B's seal on A's slot must fail as BadSignature"),
    }

    let pre1 = header_with_slot(1, 1);
    let sealed_by_b = sealed_header(&pre1, &ks_b, &public_b);
    match check_header_slot_and_seal(5, sealed_by_b, &aux) {
        Ok((_, slot, _)) => assert_eq!(slot, 1),
        _ => panic!("B's valid seal on B's slot must verify"),
    }
}

#[test]
fn seal_fails_without_the_key() {
    let (ks_a, _public_a) = keystore_with_seed(1);
    let (_ks_b, public_b) = keystore_with_seed(2);
    let hash = vec![5; 32];
    match seal(&hash, &public_b, &ks_a) {
        Err(e) => assert_eq!(e.message(), "Could not find key in keystore"),
        Ok(_) => panic!("sealing without the key must fail"),
    }
}

#[test]
fn verify_wrapper_checks_real_signatures() {
    // A signature produced independently through sp_core must be accepted,
    // and flipping one byte of it must be rejected.
    let seed = [9u8; 32];
    let pair = <sp_core::sr25519::Pair as SpCorePair>::from_seed_slice(&seed).unwrap();
    let public: Vec<u8> = SpCorePair::public(&pair).0.to_vec();
    let aux: SpinAuxData = (vec![public.clone()], 1);

    let pre = header_with_slot(1, 3);
    let pre_hash = pre.hash();
    let signature = SpCorePair::sign(&pair, &pre_hash);
    let mut sealed = pre.clone();
    sealed
        .digest
        .logs
        .push(DigestItem::spin_seal(signature.0.to_vec()));
    match check_header_slot_and_seal(3, sealed, &aux) {
        Ok((_, slot, _)) => assert_eq!(slot, 3),
        _ => panic!("an independently produced valid signature must verify"),
    }

    let mut tampered_sig = signature.0.to_vec();
    tampered_sig[0] ^= 1;
    let mut sealed = pre.clone();
    sealed.digest.logs.push(DigestItem::spin_seal(tampered_sig));
    match check_header_slot_and_seal(3, sealed, &aux) {
        Err(SealVerificationError::BadSignature) => {},
        _ => panic!("a tampered signature must be rejected"),
    }
}
