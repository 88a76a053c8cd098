//! Tests of the byte codec, the digest items and the header hash, including
//! cross-checks against independent implementations.

use parity_scale_codec::{Decode, Encode};
use spin_consensus::codec::{bytes_eq, decode_u64, encode_u64};
use spin_consensus::digests::{Digest, DigestItem};
use spin_consensus::header::Header;
use spin_consensus::SPIN_ENGINE_ID;

#[test]
fn u64_codec_matches_scale() {
    // The digest payload format is the SCALE encoding of a 64-bit integer:
    // eight little-endian bytes.
    for x in [0u64, 1, 255, 256, 0xdead_beef, u64::MAX] {
        let ours = encode_u64(x);
        let scale = x.encode();
        assert_eq!(ours, scale);
        assert_eq!(decode_u64(&ours), Some(x));
        let theirs = u64::decode(&mut &ours[..]).unwrap();
        assert_eq!(theirs, x);
    }
}

#[test]
fn u64_decode_tolerates_trailing_and_rejects_short() {
    let mut bytes = encode_u64(77);
    bytes.push(99);
    assert_eq!(decode_u64(&bytes), Some(77));
    assert_eq!(decode_u64(&vec![1, 2, 3]), None);
}

#[test]
fn bytes_eq_compares_content() {
    assert!(bytes_eq(&vec![1, 2, 3], &vec![1, 2, 3]));
    assert!(!bytes_eq(&vec![1, 2, 3], &vec![1, 2, 4]));
    assert!(!bytes_eq(&vec![1, 2], &vec![1, 2, 3]));
}

#[test]
fn engine_id_spells_spin() {
    assert_eq!(&SPIN_ENGINE_ID, b"spin");
}

#[test]
fn pre_digest_roundtrip() {
    for slot in [0u64, 1, 311, u64::MAX] {
        let item = DigestItem::spin_pre_digest(slot);
        assert_eq!(item.as_spin_pre_digest(), Some(slot));
        assert_eq!(item.as_spin_seal(), None);
    }
}

#[test]
fn seal_roundtrip_and_tolerance() {
    let sig = vec![7u8; 64];
    let item = DigestItem::spin_seal(sig.clone());
    assert_eq!(item.as_spin_seal(), Some(sig.clone()));
    assert_eq!(item.as_spin_pre_digest(), None);

    // Trailing payload bytes are ignored, exactly like the codec's decode.
    let mut padded = sig.clone();
    padded.push(1);
    let item = DigestItem::Seal(SPIN_ENGINE_ID, padded);
    assert_eq!(item.as_spin_seal(), Some(sig));

    // A payload too short for a signature is not a seal.
    let item = DigestItem::Seal(SPIN_ENGINE_ID, vec![7; 63]);
    assert_eq!(item.as_spin_seal(), None);
}

#[test]
fn other_engines_are_ignored() {
    let item = DigestItem::PreRuntime([98, 97, 98, 101], encode_u64(7));
    assert_eq!(item.as_spin_pre_digest(), None);
    let item = DigestItem::Seal([98, 97, 98, 101], vec![7; 64]);
    assert_eq!(item.as_spin_seal(), None);
}

#[test]
fn header_hash_is_blake2_of_encoding() {
    // The hash must be the blake2b-256 digest of the canonical encoding,
    // computed here independently through sp_core.
    let header = Header::new(
        3,
        vec![1; 32],
        vec![2; 32],
        vec![3; 32],
        Digest { logs: vec![DigestItem::spin_pre_digest(9)] },
    );
    let encoded = header.encode();
    let expected = <sp_core::Blake2Hasher as sp_core::Hasher>::hash(&encoded);
    assert_eq!(header.hash(), expected.as_bytes().to_vec());
}

#[test]
fn header_hash_depends_on_every_part() {
    let base = Header::new(
        3,
        vec![1; 32],
        vec![2; 32],
        vec![3; 32],
        Digest { logs: vec![DigestItem::spin_pre_digest(9)] },
    );
    let base_hash = base.hash();

    let mut other = base.clone();
    other.number = 4;
    assert_ne!(other.hash(), base_hash);

    let mut other = base.clone();
    other.parent_hash[0] ^= 1;
    assert_ne!(other.hash(), base_hash);

    let mut other = base.clone();
    other.digest.logs.push(DigestItem::Other(vec![1]));
    assert_ne!(other.hash(), base_hash);

    assert_eq!(base.clone().hash(), base_hash);
}
