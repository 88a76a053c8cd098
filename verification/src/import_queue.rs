//! The logic for verifying and importing SPIN blocks.
//!
//! The verifier is a per-call state machine. Blocks that carry full state or
//! ask to skip execution checks bypass slot and seal validation entirely: an
//! independent mechanism validated them before they were queued. Every other
//! block goes through the header/seal check with one slot of tolerance for
//! clock drift; a checked block with a body must additionally pass the
//! runtime's inherent-consistency check, with the verified slot injected as
//! the authoritative value, before the import parameters are assembled.
//!
//! Calls that only the host can make — fetching auxiliary data at the parent,
//! deriving the current slot, probing the runtime's interface version and
//! running its inherent check — happen between the stages; their results come
//! in as arguments.

use vstd::prelude::*;

use crate::digests::{spec_as_spin_seal, DigestItem};
use crate::equivocation::{check_equivocation, EquivocationProof, EquivocationStore, MAX_SLOT_CAPACITY};
use crate::header::{spec_header_hash, Header};
use crate::inherents::{spec_inherent_identifier, InherentData, InherentDataProvider, InherentError};
use crate::standalone::{
    check_header_slot_and_seal, slot_author, spec_check_header, spec_valid_authorities,
    PreDigestLookupError, SealVerificationError, SpecCheckOutcome,
};
use crate::codec::u64_le_bytes;
use crate::{spec_author_index, CompatibilityMode, Extrinsic, Slot, SpinAuxData};

verus! {

/// How the chain head is chosen once a block is imported.
#[derive(Clone, Copy, Debug, PartialEq, Eq, Structural)]
pub enum ForkChoiceStrategy {
    /// The longest valid chain wins.
    LongestChain,
    /// An explicit decision: best block or not.
    Custom(bool),
}

/// What the import pipeline should do about the block's state.
#[derive(Clone, Copy, Debug, PartialEq, Eq, Structural)]
pub enum StateAction {
    /// Apply the changes that come with the block; `imported_state` marks a
    /// block whose full state was downloaded rather than computed.
    ApplyChanges {
        /// Whether the changes are a downloaded state rather than locally
        /// computed storage changes.
        imported_state: bool,
    },
    /// Execute the block to compute the state.
    Execute,
    /// Execute if possible, otherwise import without checks.
    ExecuteIfPossible,
    /// Import without any state or execution checks.
    Skip,
}

impl StateAction {
    /// Whether checks that include execution are to be skipped.
    pub fn skip_execution_checks(&self) -> (r: bool)
        ensures
            r == (self is ApplyChanges || self is Skip),
    {
        match self {
            StateAction::ApplyChanges { .. } => true,
            StateAction::Skip => true,
            _ => false,
        }
    }
}

/// Where a block came from.
#[derive(Clone, Copy, Debug, PartialEq, Eq, Structural)]
pub enum BlockOrigin {
    /// Part of the genesis state.
    Genesis,
    /// Downloaded during the initial sync.
    NetworkInitialSync,
    /// Broadcast on the network.
    NetworkBroadcast,
    /// Produced by a consensus engine's broadcast.
    ConsensusBroadcast,
    /// Authored by this node.
    Own,
    /// Read from a file.
    File,
}

/// The parameters of one block import, as this verifier reads and mutates
/// them.
pub struct BlockImportParams {
    /// Where the block came from; carried through unchanged.
    pub origin: BlockOrigin,
    /// The block's header; replaced by the pre-header once verified.
    pub header: Header,
    /// The block's body, if it came with one.
    pub body: Option<Vec<Extrinsic>>,
    /// Digest items to apply after execution; the seal is appended here.
    pub post_digests: Vec<DigestItem>,
    /// The fork-choice strategy the next stage should apply.
    pub fork_choice: Option<ForkChoiceStrategy>,
    /// The hash the block stays indexed under even though its header content
    /// changed: the original sealed hash.
    pub post_hash: Option<Vec<u8>>,
    /// What to do about the block's state.
    pub state_action: StateAction,
}

/// Whether a block carries full, downloaded state.
pub open spec fn spec_with_state(block: BlockImportParams) -> bool {
    block.state_action == (StateAction::ApplyChanges { imported_state: true })
}

/// Whether the block bypasses slot and seal validation entirely.
pub open spec fn spec_bypass(block: BlockImportParams) -> bool {
    spec_with_state(block) || block.state_action is ApplyChanges || block.state_action is Skip
}

impl BlockImportParams {
    /// Fresh import parameters for a header: no body, nothing decided yet,
    /// the state to be computed by execution.
    pub fn new(origin: BlockOrigin, header: Header) -> (r: BlockImportParams)
        ensures
            r.origin == origin,
            r.header == header,
            r.body is None,
            r.post_digests@ =~= Seq::<DigestItem>::empty(),
            r.fork_choice is None,
            r.post_hash is None,
            r.state_action is Execute,
    {
        BlockImportParams {
            origin,
            header,
            body: None,
            post_digests: Vec::new(),
            fork_choice: None,
            post_hash: None,
            state_action: StateAction::Execute,
        }
    }

    /// Whether this block imports a downloaded state.
    pub fn with_state(&self) -> (r: bool)
        ensures
            r == spec_with_state(*self),
    {
        match &self.state_action {
            StateAction::ApplyChanges { imported_state } => *imported_state,
            _ => false,
        }
    }
}

/// Should the verifier check blocks for equivocation?
#[derive(Clone, Copy, Debug, PartialEq, Eq, Structural)]
pub enum CheckForEquivocation {
    /// Yes, check for equivocation. The default.
    Yes,
    /// No, don't check for equivocation.
    No,
}

impl CheckForEquivocation {
    /// Should we check for equivocation?
    pub fn check_for_equivocation(self) -> (r: bool)
        ensures
            r == (self is Yes),
    {
        matches!(self, Self::Yes)
    }
}

impl Default for CheckForEquivocation {
    fn default() -> (r: Self)
        ensures
            r is Yes,
    {
        Self::Yes
    }
}

/// SPIN import errors.
pub enum Error {
    /// Multiple SPIN pre-runtime digests.
    MultipleHeaders,
    /// No SPIN pre-runtime digest found.
    NoDigestFound,
    /// The header, identified by its hash, carries no seal.
    HeaderUnsealed(Vec<u8>),
    /// The header, identified by its hash, has a malformed seal.
    HeaderBadSeal(Vec<u8>),
    /// No author could be derived for the slot.
    SlotAuthorNotFound,
    /// The seal's signature is invalid on the header with the given hash.
    BadSignature(Vec<u8>),
    /// A client-side error while reading chain state.
    Client,
    /// An inherent error that no data provider recognized, under the given
    /// inherent identifier.
    UnknownInherentError([u8; 8]),
    /// An inherent error a data provider reported.
    Inherent(InherentError),
}

impl Error {
    /// A human-readable reason, in place of a `Display` implementation.
    pub fn message(&self) -> &'static str {
        match self {
            Error::MultipleHeaders => "Multiple SPIN pre-runtime headers",
            Error::NoDigestFound => "No SPIN pre-runtime digest found",
            Error::HeaderUnsealed(_) => "Header is unsealed",
            Error::HeaderBadSeal(_) => "Header has a bad seal",
            Error::SlotAuthorNotFound => "Slot Author not found",
            Error::BadSignature(_) => "Bad signature",
            Error::Client => "Client error",
            Error::UnknownInherentError(_) => "Unknown inherent error for identifier",
            Error::Inherent(_) => "Inherent error",
        }
    }
}

impl From<PreDigestLookupError> for Error {
    /// Pre-digest lookup failures surface as the matching import errors.
    fn from(e: PreDigestLookupError) -> (r: Self) {
        match e {
            PreDigestLookupError::MultipleHeaders => Error::MultipleHeaders,
            PreDigestLookupError::NoDigestFound => Error::NoDigestFound,
        }
    }
}

impl vstd::std_specs::convert::FromSpecImpl<PreDigestLookupError> for Error {
    open spec fn obeys_from_spec() -> bool {
        true
    }

    open spec fn from_spec(e: PreDigestLookupError) -> Self {
        match e {
            PreDigestLookupError::MultipleHeaders => Error::MultipleHeaders,
            PreDigestLookupError::NoDigestFound => Error::NoDigestFound,
        }
    }
}

/// A verified header: either checked, with the pre-header and the seal, or
/// deferred to the future together with its slot.
pub enum CheckedHeader {
    /// The header is valid: the pre-header, and the slot and seal item that
    /// sealed it.
    Checked(Header, (Slot, DigestItem)),
    /// The header's slot is beyond tolerance; it is returned intact to be
    /// re-verified later.
    Deferred(Header, Slot),
}

/// The import error the header/seal check maps each outcome to.
pub open spec fn spec_error_for_outcome(outcome: SpecCheckOutcome, hash: Seq<u8>, e: Error) -> bool {
    match outcome {
        SpecCheckOutcome::Unsealed => e matches Error::HeaderUnsealed(h) && h@ == hash,
        SpecCheckOutcome::BadSeal => e matches Error::HeaderBadSeal(h) && h@ == hash,
        SpecCheckOutcome::BadSignature => e matches Error::BadSignature(h) && h@ == hash,
        SpecCheckOutcome::SlotAuthorNotFound => e is SlotAuthorNotFound,
        SpecCheckOutcome::InvalidPreDigest { e: le } => e == (match le {
            PreDigestLookupError::MultipleHeaders => Error::MultipleHeaders,
            PreDigestLookupError::NoDigestFound => Error::NoDigestFound,
        }),
        _ => false,
    }
}

/// Check that a header has been signed by the right key, mapping failures to
/// import errors and optionally cross-checking for equivocation.
///
/// A detected equivocation proof is returned beside the checked header — it
/// is evidence for a separate offence-reporting mechanism, deliberately not a
/// reason to reject the block.
pub fn check_header(
    store: &mut EquivocationStore,
    slot_now: Slot,
    header: Header,
    hash: &Vec<u8>,
    aux_data: &SpinAuxData,
    check_for_equivocation: CheckForEquivocation,
) -> (r: Result<(CheckedHeader, Option<EquivocationProof>), Error>)
    requires
        old(store).well_formed(),
        aux_data.1 != 0,
        spec_valid_authorities(aux_data.0@),
        hash@ == spec_header_hash(header),
    ensures
        final(store).well_formed(),
        ({
            let outcome = spec_check_header(slot_now, header, aux_data.0.deep_view(), aux_data.1);
            match r {
                Result::Ok((CheckedHeader::Checked(pre, (slot, seal)), equivocation)) => {
                    &&& outcome == (SpecCheckOutcome::Checked { slot, sig: spec_as_spin_seal(seal)->0 })
                    &&& seal == header.digest.logs@.last()
                    &&& spec_as_spin_seal(seal) is Some
                    &&& pre.number == header.number
                    &&& pre.parent_hash == header.parent_hash
                    &&& pre.state_root == header.state_root
                    &&& pre.extrinsics_root == header.extrinsics_root
                    &&& pre.digest.logs@ == header.digest.logs@.drop_last()
                    &&& (check_for_equivocation is No ==> equivocation is None && *final(store)
                        == *old(store))
                    &&& (check_for_equivocation is Yes ==> ((equivocation is Some) == ({
                        let expected = aux_data.0.deep_view()[spec_author_index(
                            slot,
                            aux_data.1,
                            aux_data.0@.len(),
                        ) as int];
                        &&& !(slot_now > slot && slot_now - slot > MAX_SLOT_CAPACITY)
                        &&& old(store).spec_has_conflict(slot, expected, spec_header_hash(pre))
                    })))
                    &&& (equivocation matches Option::Some(proof) ==> {
                        &&& proof.slot == slot
                        &&& proof.offender@ == aux_data.0.deep_view()[spec_author_index(
                            slot,
                            aux_data.1,
                            aux_data.0@.len(),
                        ) as int]
                        &&& old(store).spec_has_conflict(slot, proof.offender@, spec_header_hash(pre))
                    })
                },
                Result::Ok((CheckedHeader::Deferred(h, slot), equivocation)) => {
                    &&& outcome == (SpecCheckOutcome::Deferred { slot })
                    &&& equivocation is None
                    &&& h.number == header.number
                    &&& h.parent_hash == header.parent_hash
                    &&& h.state_root == header.state_root
                    &&& h.extrinsics_root == header.extrinsics_root
                    &&& h.digest.logs@ == header.digest.logs@
                    &&& *final(store) == *old(store)
                },
                Result::Err(e) => spec_error_for_outcome(outcome, hash@, e) && *final(store) == *old(store),
            }
        }),
{
    let check_result = check_header_slot_and_seal(slot_now, header, aux_data);
    match check_result {
        Ok((pre_header, slot, seal)) => {
            let mut equivocation: Option<EquivocationProof> = None;
            if check_for_equivocation.check_for_equivocation() {
                let (authorities, session_length) = aux_data;
                let expected_author = slot_author(slot, *session_length, authorities);
                if let Some(expected) = expected_author {
                    equivocation = check_equivocation(store, slot_now, slot, &pre_header, expected);
                    proof {
                        let idx = spec_author_index(slot, aux_data.1, aux_data.0@.len()) as int;
                        assert(aux_data.0.deep_view()[idx] == aux_data.0@[idx]@);
                    }
                }
            }
            Ok((CheckedHeader::Checked(pre_header, (slot, seal)), equivocation))
        },
        Err(SealVerificationError::Deferred(header, slot)) => Ok(
            (CheckedHeader::Deferred(header, slot), None),
        ),
        Err(SealVerificationError::Unsealed) => Err(Error::HeaderUnsealed(hash.clone())),
        Err(SealVerificationError::BadSeal) => Err(Error::HeaderBadSeal(hash.clone())),
        Err(SealVerificationError::BadSignature) => Err(Error::BadSignature(hash.clone())),
        Err(SealVerificationError::SlotAuthorNotFound) => Err(Error::SlotAuthorNotFound),
        Err(SealVerificationError::InvalidPreDigest(e)) => Err(Error::from(e)),
    }
}

/// The first verification stage: blocks that import a downloaded state, or
/// explicitly skip execution checks, pass through with only the fork-choice
/// flag set; everything else goes on to slot and seal validation.
pub enum VerifyStart {
    /// The bypass applied; the block is ready for the next import stage.
    Bypassed(BlockImportParams),
    /// The block must be verified against auxiliary data and the current slot.
    NeedVerification(BlockImportParams),
}

/// What one verification call produced.
pub enum VerifyProgress {
    /// Verification is complete; the block is ready for the next import stage.
    Imported {
        /// The mutated import parameters.
        block: BlockImportParams,
        /// Equivocation evidence, if any, for the offence-reporting side.
        equivocation: Option<EquivocationProof>,
    },
    /// The header checked out and the block has a body: the runtime's
    /// inherent-consistency check must run before the import is assembled.
    NeedInherentCheck {
        /// Everything needed to finish the import after the check passes.
        pending: PendingImport,
        /// The inherent data to hand to the runtime, with the verified slot
        /// injected as the authoritative value.
        inherent_data: InherentData,
    },
}

/// A verified block whose inherent check is still outstanding.
pub struct PendingImport {
    /// Where the block came from; carried through unchanged.
    pub origin: BlockOrigin,
    /// The header with its seal stripped.
    pub pre_header: Header,
    /// The slot the header was sealed for.
    pub slot: Slot,
    /// The seal digest item popped off the header.
    pub seal: DigestItem,
    /// The block's body.
    pub body: Vec<Extrinsic>,
    /// The import's post-digests, before the seal is appended.
    pub post_digests: Vec<DigestItem>,
    /// The import's state action, carried through unchanged.
    pub state_action: StateAction,
    /// The original sealed hash, kept as the block's identity.
    pub post_hash: Vec<u8>,
    /// Equivocation evidence, if any, for the offence-reporting side.
    pub equivocation: Option<EquivocationProof>,
}

/// Errors of one verification attempt.
pub enum VerifyError {
    /// The header failed slot or seal validation.
    Rejected(Error),
    /// The header's slot is too far in the future; the sync layer should
    /// re-queue it rather than treat it as permanently invalid.
    TooFarInFuture,
}

impl VerifyError {
    /// A human-readable reason, in place of a `Display` implementation.
    pub fn message(&self) -> &'static str {
        match self {
            VerifyError::Rejected(e) => e.message(),
            VerifyError::TooFarInFuture => "Header rejected: too far in the future",
        }
    }
}

/// A verifier for SPIN blocks.
pub struct SpinVerifier {
    equivocation_store: EquivocationStore,
    check_for_equivocation: CheckForEquivocation,
    compatibility_mode: CompatibilityMode,
}

impl SpinVerifier {
    /// The records that equivocation detection has accumulated are coherent.
    pub closed spec fn well_formed(&self) -> bool {
        self.equivocation_store.well_formed()
    }

    /// Whether this verifier cross-checks authors for equivocation.
    pub closed spec fn spec_check_for_equivocation(&self) -> CheckForEquivocation {
        self.check_for_equivocation
    }

    /// The equivocation records this verifier has accumulated.
    pub closed spec fn spec_equivocation_store(&self) -> EquivocationStore {
        self.equivocation_store
    }

    /// The compatibility mode this verifier applies when auxiliary data is
    /// fetched.
    pub closed spec fn spec_compatibility_mode(&self) -> CompatibilityMode {
        self.compatibility_mode
    }

    /// Build a verifier.
    pub fn new(check_for_equivocation: CheckForEquivocation, compatibility_mode: CompatibilityMode) -> (r: SpinVerifier)
        ensures
            r.well_formed(),
            r.spec_check_for_equivocation() == check_for_equivocation,
            r.spec_compatibility_mode() == compatibility_mode,
    {
        SpinVerifier {
            equivocation_store: EquivocationStore::new(),
            check_for_equivocation,
            compatibility_mode,
        }
    }

    /// Build the verifier. The host wires it into its import queue.
    pub fn build_verifier(
        check_for_equivocation: CheckForEquivocation,
        compatibility_mode: CompatibilityMode,
    ) -> (r: SpinVerifier)
        ensures
            r.well_formed(),
            r.spec_check_for_equivocation() == check_for_equivocation,
            r.spec_compatibility_mode() == compatibility_mode,
    {
        SpinVerifier::new(check_for_equivocation, compatibility_mode)
    }

    /// The compatibility mode, for the caller that fetches auxiliary data.
    pub fn compatibility_mode(&self) -> (r: CompatibilityMode)
        ensures
            r == self.spec_compatibility_mode(),
    {
        self.compatibility_mode
    }

    /// The fast-path bypass: a block that carries full state, or asks to skip
    /// execution checks, was already validated by an independent mechanism —
    /// it receives only a fork-choice decision (best block exactly when it
    /// carries state) and passes through unchanged otherwise.
    pub fn verify_start(block: BlockImportParams) -> (r: VerifyStart)
        ensures
            match r {
                VerifyStart::Bypassed(b) => {
                    &&& spec_bypass(block)
                    &&& b.fork_choice == Option::Some(ForkChoiceStrategy::Custom(spec_with_state(block)))
                    &&& b.origin == block.origin
                    &&& b.header == block.header
                    &&& b.body == block.body
                    &&& b.post_digests == block.post_digests
                    &&& b.post_hash == block.post_hash
                    &&& b.state_action == block.state_action
                },
                VerifyStart::NeedVerification(b) => !spec_bypass(block) && b == block,
            },
    {
        let mut block = block;
        if block.with_state() || block.state_action.skip_execution_checks() {
            // When we are importing only the state of a block it will be the
            // best block.
            let with_state = block.with_state();
            block.fork_choice = Some(ForkChoiceStrategy::Custom(with_state));
            VerifyStart::Bypassed(block)
        } else {
            VerifyStart::NeedVerification(block)
        }
    }

    /// The normal verification path, once the caller has fetched the
    /// auxiliary data at the block's parent and derived the current slot.
    ///
    /// The header is checked with one slot of tolerance for clock drift. A
    /// checked block without a body — and one whose runtime predates the
    /// inherent-check interface, as the version probe reports — is assembled
    /// immediately; a checked block with a body first has the verified slot
    /// injected into the inherent data and awaits the runtime's
    /// inherent-consistency check. A deferred header is an explicit
    /// "too far in the future" error for the sync layer to re-queue.
    pub fn verify_with_slot(
        &mut self,
        block: BlockImportParams,
        aux_data: &SpinAuxData,
        slot_now: Slot,
        runtime_checks_inherents: bool,
        inherent_data: InherentData,
    ) -> (r: Result<VerifyProgress, VerifyError>)
        requires
            old(self).well_formed(),
            !spec_bypass(block),
            aux_data.1 != 0,
            spec_valid_authorities(aux_data.0@),
            inherent_data.well_formed(),
            slot_now < u64::MAX,
        ensures
            final(self).well_formed(),
            final(self).spec_check_for_equivocation() == old(self).spec_check_for_equivocation(),
            final(self).spec_compatibility_mode() == old(self).spec_compatibility_mode(),
            ({
                let outcome = spec_check_header(
                    (slot_now + 1) as u64,
                    block.header,
                    aux_data.0.deep_view(),
                    aux_data.1,
                );
                match r {
                    Result::Ok(VerifyProgress::Imported { block: b, equivocation }) => {
                        &&& outcome is Checked
                        &&& (old(self).spec_check_for_equivocation() is No ==> equivocation is None)
                        &&& (old(self).spec_check_for_equivocation() is Yes ==> ((equivocation
                            is Some) == (outcome matches SpecCheckOutcome::Checked { slot, sig }
                            && ({
                            let drift_bound = (slot_now + 1) as u64;
                            let expected = aux_data.0.deep_view()[spec_author_index(
                                slot,
                                aux_data.1,
                                aux_data.0@.len(),
                            ) as int];
                            &&& !(drift_bound > slot && drift_bound - slot > MAX_SLOT_CAPACITY)
                            &&& old(self).spec_equivocation_store().spec_has_conflict(
                                slot,
                                expected,
                                spec_header_hash(b.header),
                            )
                        }))))
                        &&& (equivocation matches Option::Some(proof) ==> (
                        outcome matches SpecCheckOutcome::Checked { slot, .. } && proof.slot == slot))
                        &&& (block.body is Some ==> !runtime_checks_inherents)
                        &&& b.origin == block.origin
                        &&& b.header.number == block.header.number
                        &&& b.header.parent_hash == block.header.parent_hash
                        &&& b.header.state_root == block.header.state_root
                        &&& b.header.extrinsics_root == block.header.extrinsics_root
                        &&& b.header.digest.logs@ == block.header.digest.logs@.drop_last()
                        &&& b.body == block.body
                        &&& b.post_digests@ == block.post_digests@.push(block.header.digest.logs@.last())
                        &&& b.fork_choice == Option::Some(ForkChoiceStrategy::LongestChain)
                        &&& (b.post_hash matches Option::Some(h) && h@ == spec_header_hash(block.header))
                        &&& b.state_action == block.state_action
                    },
                    Result::Ok(VerifyProgress::NeedInherentCheck { pending, inherent_data: d }) => {
                        &&& outcome == (SpecCheckOutcome::Checked {
                            slot: pending.slot,
                            sig: spec_as_spin_seal(pending.seal)->0,
                        })
                        &&& block.body is Some
                        &&& runtime_checks_inherents
                        &&& pending.origin == block.origin
                        &&& pending.pre_header.number == block.header.number
                        &&& pending.pre_header.parent_hash == block.header.parent_hash
                        &&& pending.pre_header.state_root == block.header.state_root
                        &&& pending.pre_header.extrinsics_root == block.header.extrinsics_root
                        &&& pending.pre_header.digest.logs@ == block.header.digest.logs@.drop_last()
                        &&& pending.seal == block.header.digest.logs@.last()
                        &&& pending.body == block.body->0
                        &&& pending.post_digests == block.post_digests
                        &&& pending.state_action == block.state_action
                        &&& pending.post_hash@ == spec_header_hash(block.header)
                        &&& (old(self).spec_check_for_equivocation() is No ==> pending.equivocation is None)
                        &&& (old(self).spec_check_for_equivocation() is Yes ==> ((pending.equivocation
                            is Some) == ({
                            let drift_bound = (slot_now + 1) as u64;
                            let expected = aux_data.0.deep_view()[spec_author_index(
                                pending.slot,
                                aux_data.1,
                                aux_data.0@.len(),
                            ) as int];
                            &&& !(drift_bound > pending.slot && drift_bound - pending.slot
                                > MAX_SLOT_CAPACITY)
                            &&& old(self).spec_equivocation_store().spec_has_conflict(
                                pending.slot,
                                expected,
                                spec_header_hash(pending.pre_header),
                            )
                        })))
                        &&& (pending.equivocation matches Option::Some(proof) ==> proof.slot == pending.slot)
                        &&& d.well_formed()
                        &&& d.spec_get(spec_inherent_identifier()) == Option::Some(
                            u64_le_bytes(pending.slot),
                        )
                        &&& forall|id: Seq<u8>|
                            id != spec_inherent_identifier() ==> d.spec_get(id) == inherent_data.spec_get(
                                id,
                            )
                    },
                    Result::Err(VerifyError::TooFarInFuture) => outcome is Deferred,
                    Result::Err(VerifyError::Rejected(e)) => spec_error_for_outcome(
                        outcome,
                        spec_header_hash(block.header),
                        e,
                    ),
                }
            }),
    {
        let hash = block.header.hash();
        let BlockImportParams {
            origin,
            header,
            body,
            post_digests,
            fork_choice: _,
            post_hash: _,
            state_action,
        } = block;
        // We add one to the current slot to allow for some small drift.
        let checked = check_header(
            &mut self.equivocation_store,
            slot_now + 1,
            header,
            &hash,
            aux_data,
            self.check_for_equivocation,
        );
        match checked {
            Ok((CheckedHeader::Checked(pre_header, (slot, seal)), equivocation)) => {
                match body {
                    Some(inner_body) => {
                        if runtime_checks_inherents {
                            // The runtime must check that the in-body inherents
                            // agree with the slot set in the seal: the
                            // verifier's own slot determination is
                            // authoritative.
                            let mut inherent_data = inherent_data;
                            inherent_data.spin_replace_inherent_data(slot);
                            Ok(VerifyProgress::NeedInherentCheck {
                                pending: PendingImport {
                                    origin,
                                    pre_header,
                                    slot,
                                    seal,
                                    body: inner_body,
                                    post_digests,
                                    state_action,
                                    post_hash: hash,
                                    equivocation,
                                },
                                inherent_data,
                            })
                        } else {
                            let mut b = BlockImportParams {
                                origin,
                                header: pre_header,
                                body: Some(inner_body),
                                post_digests,
                                fork_choice: Some(ForkChoiceStrategy::LongestChain),
                                post_hash: Some(hash),
                                state_action,
                            };
                            b.post_digests.push(seal);
                            Ok(VerifyProgress::Imported { block: b, equivocation })
                        }
                    },
                    None => {
                        let mut b = BlockImportParams {
                            origin,
                            header: pre_header,
                            body: None,
                            post_digests,
                            fork_choice: Some(ForkChoiceStrategy::LongestChain),
                            post_hash: Some(hash),
                            state_action,
                        };
                        b.post_digests.push(seal);
                        Ok(VerifyProgress::Imported { block: b, equivocation })
                    },
                }
            },
            Ok((CheckedHeader::Deferred(_header, _slot), _)) => Err(VerifyError::TooFarInFuture),
            Err(e) => Err(VerifyError::Rejected(e)),
        }
    }

    /// Resolve the runtime's inherent-check result: a clean result passes;
    /// each reported error is offered to the inherent-data provider, and one
    /// it cannot reconcile is a hard failure under its identifier. This
    /// provider recognizes no errors, so any reported error escalates.
    pub fn check_inherents(
        &self,
        okay: bool,
        errors: Vec<([u8; 8], Vec<u8>)>,
        provider: &InherentDataProvider,
    ) -> (r: Result<(), Error>)
        ensures
            match r {
                Result::Ok(()) => okay || errors@.len() == 0,
                Result::Err(e) => {
                    &&& !okay
                    &&& errors@.len() > 0
                    &&& e matches Error::UnknownInherentError(id) && id@ == errors@[0].0@
                },
            },
    {
        if okay {
            return Ok(());
        }
        let n = errors.len();
        for i in 0..n
            invariant
                !okay,
                n == errors@.len(),
                i == 0,
        {
            let identifier = errors[i].0;
            match provider.try_handle_error(&identifier, &errors[i].1) {
                Some(res) => {
                    match res {
                        Ok(()) => {},
                        Err(e) => {
                            return Err(Error::Inherent(e));
                        },
                    }
                },
                None => {
                    proof {
                        assert(identifier@ == errors@[0].0@);
                    }
                    return Err(Error::UnknownInherentError(identifier));
                },
            }
            proof {
                assert(false);
            }
        }
        Ok(())
    }

    /// Assemble the import parameters of a verified block once its inherent
    /// check has passed: the pre-header replaces the header, the seal joins
    /// the post-digests, the fork choice is the longest chain, and the block
    /// keeps its original sealed hash as its identity.
    pub fn verify_finish(pending: PendingImport) -> (r: (BlockImportParams, Option<EquivocationProof>))
        ensures
            r.0.origin == pending.origin,
            r.0.header == pending.pre_header,
            r.0.body == Option::Some(pending.body),
            r.0.post_digests@ == pending.post_digests@.push(pending.seal),
            r.0.fork_choice == Option::Some(ForkChoiceStrategy::LongestChain),
            r.0.post_hash == Option::Some(pending.post_hash),
            r.0.state_action == pending.state_action,
            r.1 == pending.equivocation,
    {
        let PendingImport {
            origin,
            pre_header,
            slot: _,
            seal,
            body,
            post_digests,
            state_action,
            post_hash,
            equivocation,
        } = pending;
        let mut b = BlockImportParams {
            origin,
            header: pre_header,
            body: Some(body),
            post_digests,
            fork_choice: Some(ForkChoiceStrategy::LongestChain),
            post_hash: Some(post_hash),
            state_action,
        };
        b.post_digests.push(seal);
        (b, equivocation)
    }
}

} // verus!
