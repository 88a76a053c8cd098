//! SPIN: a slot-based, round-robin block authoring and verification protocol.
//!
//! Time is divided into discrete slots, and slots are grouped into sessions.
//! An ordered list of authorities takes turns authoring blocks: for a given
//! slot the author is `authorities[(slot / session_length) % authorities.len()]`.
//! The authoring side claims a slot, embeds the slot number in a pre-runtime
//! digest and seals the produced header with a signature over its hash; the
//! verifying side strips the seal, recovers the slot, and checks the signature
//! against the expected author for that slot.

use vstd::prelude::*;

pub mod calc;
pub mod codec;
pub mod crypto;
pub mod digests;
pub mod header;
pub mod keystore;
pub mod standalone;
pub mod equivocation;
pub mod inherents;
pub mod import_queue;
pub mod worker;
pub mod pallet;
pub mod mock;
pub mod aura_session;
pub mod gas;
pub mod configs;
pub mod xcq;

verus! {

/// A slot number: a fixed-length time window since the chain-wide epoch.
pub type Slot = u64;

/// Number of slots in one session: one leadership rotation granularity.
///
/// A session length of zero is a contract violation everywhere it is consumed.
pub type SessionLength = u32;

/// The index an authority occupies in the ordered authority list.
pub type AuthorityIndex = u32;

/// An authority's public key, as raw bytes (32 bytes for the signature
/// scheme this library is instantiated with).
pub type AuthorityId = Vec<u8>;

/// An opaque extrinsic of a block body, carried through unparsed.
pub type Extrinsic = Vec<u8>;

/// Auxiliary data for SPIN: the ordered authority list together with the
/// session length, fetched fresh from runtime state per attempt.
pub type SpinAuxData = (Vec<AuthorityId>, SessionLength);

/// The four-byte consensus engine tag of SPIN digest items: the ASCII bytes
/// of the protocol's lower-case name.
pub const SPIN_ENGINE_ID: [u8; 4] = [115, 112, 105, 110];

/// The engine tag as a sequence, for use in specifications.
pub open spec fn spec_spin_engine_id() -> Seq<u8> {
    seq![115u8, 112u8, 105u8, 110u8]
}

/// The position in the authority list that authors a given slot.
///
/// The session index is the slot divided by the session length; the author
/// rotates once per session, round robin over the list.
pub open spec fn spec_author_index(slot: Slot, session_length: SessionLength, n_authorities: nat) -> nat
    recommends
        session_length != 0,
        n_authorities > 0,
{
    ((slot as nat) / (session_length as nat)) % n_authorities
}

/// A consensus log item for SPIN, deposited in a block's digest under the
/// SPIN engine tag.
pub enum ConsensusLog {
    /// The authorities have changed.
    AuthoritiesChange(Vec<AuthorityId>),
    /// Disable the authority with the given index.
    OnDisabled(AuthorityIndex),
}

/// The canonical encoding of an authority list: a count followed by each
/// key's length-prefixed bytes.
pub open spec fn spec_encode_authority_list(authorities: Seq<AuthorityId>) -> Seq<u8>
    decreases authorities.len(),
{
    if authorities.len() == 0 {
        Seq::empty()
    } else {
        spec_encode_authority_list(authorities.drop_last())
            + crate::codec::u64_le_bytes(authorities.last()@.len() as u64) + authorities.last()@
    }
}

/// The canonical encoding of a consensus log item: a variant tag followed by
/// the variant's payload.
pub open spec fn spec_encode_consensus_log(log: ConsensusLog) -> Seq<u8> {
    match log {
        ConsensusLog::AuthoritiesChange(authorities) => seq![1u8] + crate::codec::u64_le_bytes(
            authorities@.len() as u64,
        ) + spec_encode_authority_list(authorities@),
        ConsensusLog::OnDisabled(index) => seq![2u8] + crate::codec::u64_le_bytes(index as u64),
    }
}

/// Encode a consensus log item in the canonical form.
pub fn encode_consensus_log(log: &ConsensusLog) -> (r: Vec<u8>)
    ensures
        r@ == spec_encode_consensus_log(*log),
{
    let mut out: Vec<u8> = Vec::new();
    match log {
        ConsensusLog::AuthoritiesChange(authorities) => {
            out.push(1);
            let count = crate::codec::encode_u64(authorities.len() as u64);
            out.extend_from_slice(count.as_slice());
            proof {
                assert(out@ =~= seq![1u8] + crate::codec::u64_le_bytes(authorities@.len() as u64));
            }
            let ghost prefix = out@;
            let n = authorities.len();
            for i in 0..n
                invariant
                    n == authorities@.len(),
                    out@ == prefix + spec_encode_authority_list(authorities@.take(i as int)),
            {
                let len_bytes = crate::codec::encode_u64(authorities[i].len() as u64);
                out.extend_from_slice(len_bytes.as_slice());
                out.extend_from_slice(authorities[i].as_slice());
                proof {
                    assert(authorities@.take(i + 1).drop_last() =~= authorities@.take(i as int));
                    assert(authorities@.take(i + 1).last() == authorities@[i as int]);
                    assert(out@ =~= prefix + spec_encode_authority_list(authorities@.take(i + 1)));
                }
            }
            proof {
                assert(authorities@.take(n as int) =~= authorities@);
                assert(out@ =~= spec_encode_consensus_log(*log));
            }
        },
        ConsensusLog::OnDisabled(index) => {
            out.push(2);
            let index_bytes = crate::codec::encode_u64(*index as u64);
            out.extend_from_slice(index_bytes.as_slice());
            proof {
                assert(out@ =~= spec_encode_consensus_log(*log));
            }
        },
    }
    out
}

/// Run SPIN in a compatibility mode.
///
/// This is required for when the chain was launched and later there was a
/// consensus breaking change.
#[derive(Clone, Copy, Debug, PartialEq, Eq, Structural)]
pub enum CompatibilityMode {
    /// Don't use any compatibility mode.
    Disabled,
    /// Call `initialize_block` before doing any runtime calls, for blocks
    /// below the given number. A one-time migration knob: once `until` is
    /// exceeded the mode has no further effect.
    UseInitializeBlock {
        /// The block number until which this compatibility mode is executed.
        until: u64,
    },
}

impl CompatibilityMode {
    /// Whether fetching auxiliary data in the context of the given block
    /// number must be preceded by the legacy `initialize_block` runtime call.
    pub fn initialize_block_needed(&self, context_block_number: u64) -> (r: bool)
        ensures
            r == (self matches CompatibilityMode::UseInitializeBlock { until } && until > context_block_number),
    {
        match self {
            CompatibilityMode::Disabled => false,
            CompatibilityMode::UseInitializeBlock { until } => *until > context_block_number,
        }
    }
}

impl Default for CompatibilityMode {
    fn default() -> (r: Self)
        ensures
            r is Disabled,
    {
        CompatibilityMode::Disabled
    }
}

/// Errors fatal to one authoring or verification attempt, modelled on the
/// consensus error surface the authoring side reports.
#[derive(Clone, Copy, Debug, PartialEq, Eq, Structural)]
pub enum ConsensusError {
    /// The keystore holds no key that can produce the requested signature.
    CannotSign,
    /// The keystore returned signature material of the wrong shape. A host
    /// keystore can; the library's own keystore never does.
    InvalidSignature,
    /// The authority set could not be fetched from runtime state.
    InvalidAuthoritiesSet,
    /// A client-side import error.
    ClientImport,
}

impl ConsensusError {
    /// A human-readable reason, in place of a `Display` implementation.
    pub fn message(&self) -> &'static str {
        match self {
            ConsensusError::CannotSign => "Could not find key in keystore",
            ConsensusError::InvalidSignature => "Invalid signature material returned by keystore",
            ConsensusError::InvalidAuthoritiesSet => "Current state of blockchain has invalid authorities set",
            ConsensusError::ClientImport => "Client import failed",
        }
    }
}

} // verus!

