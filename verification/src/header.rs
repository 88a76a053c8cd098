//! The block header as the protocol reads it: a number, the usual three
//! hashes, and the digest log. The header's hash — the pre-hash, when the
//! seal has been stripped — is the blake2b-256 digest of the library's
//! canonical byte encoding, defined here; every variable-length field is
//! length-prefixed so that the encoding is unambiguous.

use vstd::prelude::*;

use crate::codec::{encode_u64, u64_le_bytes};
use crate::crypto::{blake2_256, blake2_256_of};
use crate::digests::{digest_item_matches, logs_match, Digest, DigestItem};

verus! {

/// A block header.
pub struct Header {
    /// The block number; the genesis block is number zero.
    pub number: u64,
    /// The hash of the parent block's header.
    pub parent_hash: Vec<u8>,
    /// The state trie root after this block.
    pub state_root: Vec<u8>,
    /// The root of the block body's extrinsics.
    pub extrinsics_root: Vec<u8>,
    /// The digest log.
    pub digest: Digest,
}

/// View-level equality of headers: same number, same roots, and digest logs
/// equal item by item.
pub open spec fn header_matches(a: Header, b: Header) -> bool {
    &&& a.number == b.number
    &&& a.parent_hash@ == b.parent_hash@
    &&& a.state_root@ == b.state_root@
    &&& a.extrinsics_root@ == b.extrinsics_root@
    &&& logs_match(a.digest.logs@, b.digest.logs@)
}

/// The canonical encoding of one digest item: a variant tag, the engine tag
/// where the variant carries one, and the length-prefixed payload.
pub open spec fn spec_encode_digest_item(item: DigestItem) -> Seq<u8> {
    match item {
        DigestItem::Other(data) => seq![0u8] + u64_le_bytes(data@.len() as u64) + data@,
        DigestItem::Consensus(id, data) => seq![4u8] + id@ + u64_le_bytes(data@.len() as u64) + data@,
        DigestItem::Seal(id, data) => seq![5u8] + id@ + u64_le_bytes(data@.len() as u64) + data@,
        DigestItem::PreRuntime(id, data) => seq![6u8] + id@ + u64_le_bytes(data@.len() as u64) + data@,
    }
}

/// The canonical encoding of a digest log: the items' encodings in order.
pub open spec fn spec_encode_logs(logs: Seq<DigestItem>) -> Seq<u8>
    decreases logs.len(),
{
    if logs.len() == 0 {
        Seq::empty()
    } else {
        spec_encode_logs(logs.drop_last()) + spec_encode_digest_item(logs.last())
    }
}

/// The canonical encoding of a header from its parts.
pub open spec fn spec_encode_header_parts(
    number: u64,
    parent_hash: Seq<u8>,
    state_root: Seq<u8>,
    extrinsics_root: Seq<u8>,
    logs: Seq<DigestItem>,
) -> Seq<u8> {
    u64_le_bytes(number) + u64_le_bytes(parent_hash.len() as u64) + parent_hash
        + u64_le_bytes(state_root.len() as u64) + state_root
        + u64_le_bytes(extrinsics_root.len() as u64) + extrinsics_root
        + u64_le_bytes(logs.len() as u64) + spec_encode_logs(logs)
}

/// The canonical encoding of a header.
pub open spec fn spec_encode_header(h: Header) -> Seq<u8> {
    spec_encode_header_parts(h.number, h.parent_hash@, h.state_root@, h.extrinsics_root@, h.digest.logs@)
}

/// The hash of a header given by its parts: blake2b-256 of the encoding.
pub open spec fn spec_header_hash_parts(
    number: u64,
    parent_hash: Seq<u8>,
    state_root: Seq<u8>,
    extrinsics_root: Seq<u8>,
    logs: Seq<DigestItem>,
) -> Seq<u8> {
    blake2_256_of(spec_encode_header_parts(number, parent_hash, state_root, extrinsics_root, logs))
}

/// The hash of a header: blake2b-256 of its canonical encoding.
pub open spec fn spec_header_hash(h: Header) -> Seq<u8> {
    blake2_256_of(spec_encode_header(h))
}

/// Items equal at view level have equal encodings.
pub proof fn lemma_encode_item_respects_matches(a: DigestItem, b: DigestItem)
    requires
        digest_item_matches(a, b),
    ensures
        spec_encode_digest_item(a) == spec_encode_digest_item(b),
{
}

/// Logs equal item by item have equal encodings.
pub proof fn lemma_encode_logs_respects_matches(a: Seq<DigestItem>, b: Seq<DigestItem>)
    requires
        logs_match(a, b),
    ensures
        spec_encode_logs(a) == spec_encode_logs(b),
    decreases a.len(),
{
    if a.len() > 0 {
        assert(logs_match(a.drop_last(), b.drop_last()));
        lemma_encode_logs_respects_matches(a.drop_last(), b.drop_last());
        lemma_encode_item_respects_matches(a.last(), b.last());
    }
}

/// Headers equal at view level have the same encoding, hence the same hash.
pub proof fn lemma_hash_respects_matches(a: Header, b: Header)
    requires
        header_matches(a, b),
    ensures
        spec_encode_header(a) == spec_encode_header(b),
        spec_header_hash(a) == spec_header_hash(b),
{
    lemma_encode_logs_respects_matches(a.digest.logs@, b.digest.logs@);
}

/// Append the bytes of `src` to `dst`.
fn append_bytes(dst: &mut Vec<u8>, src: &Vec<u8>)
    ensures
        final(dst)@ == old(dst)@ + src@,
{
    dst.extend_from_slice(src.as_slice());
    proof {
        assert(dst@ =~= old(dst)@ + src@);
    }
}

/// Encode one digest item in the canonical form.
fn encode_digest_item(item: &DigestItem) -> (r: Vec<u8>)
    ensures
        r@ == spec_encode_digest_item(*item),
{
    let mut out: Vec<u8> = Vec::new();
    match item {
        DigestItem::Other(data) => {
            out.push(0);
            let len = encode_u64(data.len() as u64);
            append_bytes(&mut out, &len);
            append_bytes(&mut out, data);
            proof {
                assert(out@ =~= spec_encode_digest_item(*item));
            }
        },
        DigestItem::Consensus(id, data) => {
            out.push(4);
            out.push(id[0]);
            out.push(id[1]);
            out.push(id[2]);
            out.push(id[3]);
            let len = encode_u64(data.len() as u64);
            append_bytes(&mut out, &len);
            append_bytes(&mut out, data);
            proof {
                assert(out@ =~= spec_encode_digest_item(*item));
            }
        },
        DigestItem::Seal(id, data) => {
            out.push(5);
            out.push(id[0]);
            out.push(id[1]);
            out.push(id[2]);
            out.push(id[3]);
            let len = encode_u64(data.len() as u64);
            append_bytes(&mut out, &len);
            append_bytes(&mut out, data);
            proof {
                assert(out@ =~= spec_encode_digest_item(*item));
            }
        },
        DigestItem::PreRuntime(id, data) => {
            out.push(6);
            out.push(id[0]);
            out.push(id[1]);
            out.push(id[2]);
            out.push(id[3]);
            let len = encode_u64(data.len() as u64);
            append_bytes(&mut out, &len);
            append_bytes(&mut out, data);
            proof {
                assert(out@ =~= spec_encode_digest_item(*item));
            }
        },
    }
    out
}

impl Header {
    /// Construct a header from its parts, in the order the host framework's
    /// header constructor takes them.
    pub fn new(
        number: u64,
        extrinsics_root: Vec<u8>,
        state_root: Vec<u8>,
        parent_hash: Vec<u8>,
        digest: Digest,
    ) -> (r: Header)
        ensures
            r.number == number,
            r.extrinsics_root@ == extrinsics_root@,
            r.state_root@ == state_root@,
            r.parent_hash@ == parent_hash@,
            r.digest.logs@ == digest.logs@,
    {
        Header { number, parent_hash, state_root, extrinsics_root, digest }
    }

    /// The canonical byte encoding of this header.
    pub fn encode(&self) -> (r: Vec<u8>)
        ensures
            r@ == spec_encode_header(*self),
    {
        let mut out: Vec<u8> = Vec::new();
        let number_bytes = encode_u64(self.number);
        append_bytes(&mut out, &number_bytes);
        let len_bytes = encode_u64(self.parent_hash.len() as u64);
        append_bytes(&mut out, &len_bytes);
        append_bytes(&mut out, &self.parent_hash);
        let len_bytes = encode_u64(self.state_root.len() as u64);
        append_bytes(&mut out, &len_bytes);
        append_bytes(&mut out, &self.state_root);
        let len_bytes = encode_u64(self.extrinsics_root.len() as u64);
        append_bytes(&mut out, &len_bytes);
        append_bytes(&mut out, &self.extrinsics_root);
        let len_bytes = encode_u64(self.digest.logs.len() as u64);
        append_bytes(&mut out, &len_bytes);
        let ghost prefix = out@;
        let n = self.digest.logs.len();
        for i in 0..n
            invariant
                n == self.digest.logs@.len(),
                out@ == prefix + spec_encode_logs(self.digest.logs@.take(i as int)),
        {
            let item_bytes = encode_digest_item(&self.digest.logs[i]);
            append_bytes(&mut out, &item_bytes);
            proof {
                assert(self.digest.logs@.take(i + 1).drop_last() =~= self.digest.logs@.take(i as int));
                assert(self.digest.logs@.take(i + 1).last() == self.digest.logs@[i as int]);
            }
        }
        proof {
            assert(self.digest.logs@.take(n as int) =~= self.digest.logs@);
            assert(out@ =~= spec_encode_header(*self));
        }
        out
    }

    /// The hash of this header: blake2b-256 of its canonical encoding.
    ///
    /// On a header whose seal has been stripped this is the pre-hash, the
    /// exact content an authority signs.
    pub fn hash(&self) -> (r: Vec<u8>)
        ensures
            r@ == spec_header_hash(*self),
            r@.len() == 32,
    {
        let encoded = self.encode();
        blake2_256(&encoded)
    }
}

impl Clone for Header {
    /// A clone is equal at view level.
    fn clone(&self) -> (r: Self)
        ensures
            header_matches(r, *self),
    {
        Header {
            number: self.number,
            parent_hash: self.parent_hash.clone(),
            state_root: self.state_root.clone(),
            extrinsics_root: self.extrinsics_root.clone(),
            digest: self.digest.clone(),
        }
    }
}

} // verus!
