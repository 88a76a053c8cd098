//! The cross-chain query extension surface: which extensions the runtime
//! offers, the placeholder ledger answers it currently returns, and the
//! wire shape of a queued transfer.

use vstd::prelude::*;

use crate::codec::{decode_u64, encode_u64, lemma_u64_codec_roundtrip, spec_decode_u64, u64_le_bytes};

verus! {

/// The runtime's implementation of the query extensions.
pub struct ExtensionImpl;

impl ExtensionImpl {
    /// Whether the runtime offers the extension with this identifier: the
    /// core extension and the fungibles extension, nothing else.
    pub fn has_extension(id: u64) -> (r: bool)
        ensures
            r == (id == 0 || id == 1),
    {
        matches!(id, 0 | 1)
    }

    /// The balance a query reads; a fixed placeholder until the ledger is
    /// wired through.
    pub fn balance(_asset: u64, _who: &Vec<u8>) -> (r: u64)
        ensures
            r == 100,
    {
        100
    }

    /// The balance a transfer query reports; a fixed placeholder until the
    /// ledger is wired through.
    pub fn transfer(
        _from_asset: u64,
        _from_who: &Vec<u8>,
        _to_asset: u64,
        _to_who: &Vec<u8>,
    ) -> (r: u64)
        ensures
            r == 100,
    {
        100
    }

    /// The total supply a query reads; a fixed placeholder until the ledger
    /// is wired through.
    pub fn total_supply(_asset: u64) -> (r: u64)
        ensures
            r == 200,
    {
        200
    }
}

/// A transfer order as queries carry it: an asset and the two account keys.
pub struct SCTransferData {
    asset: u64,
    source: Vec<u8>,
    dest: Vec<u8>,
}

/// The wire encoding of a transfer order: the asset's eight little-endian
/// bytes, then the 32-byte source and destination accounts.
pub open spec fn spec_encode_transfer(asset: u64, source: Seq<u8>, dest: Seq<u8>) -> Seq<u8> {
    u64_le_bytes(asset) + source + dest
}

/// What decoding a transfer order yields: the three fields read off the
/// first 72 bytes, or nothing if fewer are present. Trailing bytes are
/// ignored.
pub open spec fn spec_decode_transfer(s: Seq<u8>) -> Option<(u64, Seq<u8>, Seq<u8>)> {
    if s.len() >= 72 {
        match spec_decode_u64(s) {
            Option::Some(asset) => Option::Some(
                (asset, s.subrange(8, 40), s.subrange(40, 72)),
            ),
            Option::None => Option::None,
        }
    } else {
        Option::None
    }
}

impl SCTransferData {
    /// The accounts are 32-byte keys.
    pub closed spec fn well_formed(&self) -> bool {
        self.source@.len() == 32 && self.dest@.len() == 32
    }

    /// The asset being moved.
    pub closed spec fn spec_asset(&self) -> u64 {
        self.asset
    }

    /// The source account.
    pub closed spec fn spec_source(&self) -> Seq<u8> {
        self.source@
    }

    /// The destination account.
    pub closed spec fn spec_dest(&self) -> Seq<u8> {
        self.dest@
    }

    /// A transfer order.
    pub fn new(asset: u64, source: Vec<u8>, dest: Vec<u8>) -> (r: SCTransferData)
        requires
            source@.len() == 32,
            dest@.len() == 32,
        ensures
            r.well_formed(),
            r.spec_asset() == asset,
            r.spec_source() == source@,
            r.spec_dest() == dest@,
    {
        SCTransferData { asset, source, dest }
    }

    /// Encode this order for the wire.
    pub fn encode(&self) -> (r: Vec<u8>)
        ensures
            r@ == spec_encode_transfer(self.spec_asset(), self.spec_source(), self.spec_dest()),
    {
        let mut out = encode_u64(self.asset);
        out.extend_from_slice(self.source.as_slice());
        out.extend_from_slice(self.dest.as_slice());
        proof {
            assert(out@ =~= spec_encode_transfer(self.spec_asset(), self.spec_source(), self.spec_dest()));
        }
        out
    }

    /// Decode an order off the wire; fails on fewer than 72 bytes and
    /// ignores trailing bytes.
    pub fn decode(bytes: &Vec<u8>) -> (r: Option<SCTransferData>)
        ensures
            match r {
                Option::Some(t) => {
                    &&& t.well_formed()
                    &&& spec_decode_transfer(bytes@) == Option::Some(
                        (t.spec_asset(), t.spec_source(), t.spec_dest()),
                    )
                },
                Option::None => spec_decode_transfer(bytes@) is None,
            },
    {
        if bytes.len() < 72 {
            return None;
        }
        let asset = match decode_u64(bytes) {
            Some(a) => a,
            None => {
                return None;
            },
        };
        let mut source: Vec<u8> = Vec::new();
        for i in 8..40usize
            invariant
                bytes@.len() >= 72,
                source@ =~= bytes@.subrange(8, i as int),
        {
            source.push(bytes[i]);
        }
        let mut dest: Vec<u8> = Vec::new();
        for i in 40..72usize
            invariant
                bytes@.len() >= 72,
                dest@ =~= bytes@.subrange(40, i as int),
        {
            dest.push(bytes[i]);
        }
        Some(SCTransferData { asset, source, dest })
    }
}

/// Decoding inverts encoding: an order read back from its own wire bytes is
/// the order itself, field by field.
pub proof fn lemma_transfer_codec_roundtrip(asset: u64, source: Seq<u8>, dest: Seq<u8>)
    requires
        source.len() == 32,
        dest.len() == 32,
    ensures
        spec_decode_transfer(spec_encode_transfer(asset, source, dest)) == Option::Some(
            (asset, source, dest),
        ),
{
    let s = spec_encode_transfer(asset, source, dest);
    lemma_u64_codec_roundtrip(asset);
    assert(s.take(8) =~= u64_le_bytes(asset));
    assert(spec_decode_u64(s) == Option::Some(asset)) by {
        assert(u64_le_bytes(asset).take(8) =~= u64_le_bytes(asset));
        assert(s.take(8) == u64_le_bytes(asset));
    }
    assert(s.subrange(8, 40) =~= source);
    assert(s.subrange(40, 72) =~= dest);
}

} // verus!
