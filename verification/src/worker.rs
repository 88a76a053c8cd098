//! The authoring worker: the authority-side counterpart of the verifier.
//! Per slot it decides whether this node may claim the slot, builds the
//! pre-digest to embed before runtime execution, seals the produced header,
//! and decides whether authoring should back off when the chain has lagged.
//!
//! Driving the loop — slot timing, proposing, importing — is the host's job;
//! the decisions it needs are here, as functions from plain values.

use vstd::prelude::*;

use crate::digests::{spec_as_spin_pre_digest, spec_as_spin_seal, DigestItem};
use crate::header::{spec_header_hash, Header};
use crate::import_queue::{BlockImportParams, BlockOrigin, ForkChoiceStrategy, StateAction};
use crate::keystore::Keystore;
use crate::standalone::{claim_slot, find_pre_digest, pre_digest, seal, spec_find_pre_digest};
use crate::codec::u64_le_bytes;
use crate::crypto::sr25519_verifies;
use crate::{
    spec_author_index, spec_spin_engine_id, AuthorityId, CompatibilityMode, ConsensusError,
    Extrinsic, Slot, SpinAuxData,
};

verus! {

/// What a configured backoff strategy is asked: the chain head's number and
/// sealed slot, and the slot being considered. The host adds the finalized
/// number and puts the question to the strategy.
pub struct BackoffQuery {
    /// The chain head's block number.
    pub chain_head_number: u64,
    /// The slot the chain head was sealed for.
    pub chain_head_slot: Slot,
    /// The slot whose authoring is being considered.
    pub slot: Slot,
}

/// The SPIN authoring worker's decision state: the node's keys and the
/// configuration that shapes its per-slot decisions.
pub struct SpinWorker {
    keystore: Keystore,
    force_authoring: bool,
    backoff_authoring_blocks: bool,
    compatibility_mode: CompatibilityMode,
}

/// Build the SPIN worker from the node's keystore and authoring
/// configuration. The caller is responsible for running it slot by slot.
pub fn build_spin_worker(
    keystore: Keystore,
    force_authoring: bool,
    backoff_authoring_blocks: bool,
    compatibility_mode: CompatibilityMode,
) -> (r: SpinWorker)
    requires
        keystore.well_formed(),
    ensures
        r.well_formed(),
        r.spec_keystore() == keystore,
        r.spec_force_authoring() == force_authoring,
        r.spec_backoff_configured() == backoff_authoring_blocks,
        r.spec_compatibility_mode() == compatibility_mode,
{
    SpinWorker { keystore, force_authoring, backoff_authoring_blocks, compatibility_mode }
}

impl SpinWorker {
    /// The worker's keystore is coherent.
    pub closed spec fn well_formed(&self) -> bool {
        self.keystore.well_formed()
    }

    /// The keys this worker controls.
    pub closed spec fn spec_keystore(&self) -> Keystore {
        self.keystore
    }

    /// Whether authoring is forced even while the node syncs.
    pub closed spec fn spec_force_authoring(&self) -> bool {
        self.force_authoring
    }

    /// Whether a backoff strategy is configured.
    pub closed spec fn spec_backoff_configured(&self) -> bool {
        self.backoff_authoring_blocks
    }

    /// The compatibility mode applied when auxiliary data is fetched.
    pub closed spec fn spec_compatibility_mode(&self) -> CompatibilityMode {
        self.compatibility_mode
    }

    /// The log target this worker reports under.
    pub fn logging_target(&self) -> &'static str {
        "spin"
    }

    /// Where and how auxiliary data is to be fetched for authoring on the
    /// given best header: at the state of that header, in the context of the
    /// next block's number — so the data reflects state as it will be for the
    /// block being authored — and whether the legacy initialization call must
    /// precede the fetch.
    pub fn aux_data_context(&self, best_header_number: u64) -> (r: (u64, bool))
        requires
            best_header_number < u64::MAX,
        ensures
            r.0 == best_header_number + 1,
            r.1 == (self.spec_compatibility_mode() matches CompatibilityMode::UseInitializeBlock {
                until,
            } && until > best_header_number + 1),
    {
        let context_number = best_header_number + 1;
        let needs_initialize = self.compatibility_mode.initialize_block_needed(context_number);
        (context_number, needs_initialize)
    }

    /// The authority-set size, for backoff-strategy sizing.
    pub fn authorities_len(&self, aux_data: &SpinAuxData) -> (r: Option<usize>)
        ensures
            r matches Option::Some(n) && n == aux_data.0@.len(),
    {
        Some(aux_data.0.len())
    }

    /// Attempt to claim the slot: the expected author's key, if this node's
    /// keystore holds it.
    pub fn claim_slot(&self, _header: &Header, slot: Slot, aux_data: &SpinAuxData) -> (r: Option<
        AuthorityId,
    >)
        requires
            self.well_formed(),
            aux_data.0@.len() == 0 || aux_data.1 != 0,
        ensures
            ({
                let authorities = aux_data.0@;
                match r {
                    Option::Some(p) => {
                        &&& authorities.len() > 0
                        &&& p@ == authorities[spec_author_index(
                            slot,
                            aux_data.1,
                            authorities.len(),
                        ) as int]@
                        &&& self.spec_keystore().spec_has_key(p@)
                    },
                    Option::None => authorities.len() == 0 || !self.spec_keystore().spec_has_key(
                        authorities[spec_author_index(slot, aux_data.1, authorities.len()) as int]@,
                    ),
                }
            }),
    {
        claim_slot(slot, aux_data, &self.keystore)
    }

    /// The digest items to embed in the header before runtime execution:
    /// exactly the pre-digest carrying the slot.
    pub fn pre_digest_data(&self, slot: Slot, _claim: &AuthorityId) -> (r: Vec<DigestItem>)
        ensures
            r@.len() == 1,
            r@[0] is PreRuntime,
            r@[0]->PreRuntime_0@ == spec_spin_engine_id(),
            r@[0]->PreRuntime_1@ == u64_le_bytes(slot),
            spec_as_spin_pre_digest(r@[0]) == Option::Some(slot),
    {
        let mut items: Vec<DigestItem> = Vec::new();
        items.push(pre_digest(slot));
        items
    }

    /// Seal a produced block and assemble its import parameters: the seal —
    /// the claimed key's signature over the header hash — joins the
    /// post-digests, the body and computed changes are applied, and the
    /// longest chain wins the fork choice.
    ///
    /// A signing failure is fatal to this slot's authoring attempt only.
    pub fn block_import_params(
        &self,
        header: Header,
        header_hash: &Vec<u8>,
        body: Vec<Extrinsic>,
        public: &AuthorityId,
    ) -> (r: Result<BlockImportParams, ConsensusError>)
        requires
            self.well_formed(),
            header_hash@ == spec_header_hash(header),
        ensures
            match r {
                Result::Ok(b) => {
                    &&& self.spec_keystore().spec_has_key(public@)
                    &&& b.origin is Own
                    &&& b.header == header
                    &&& b.body == Option::Some(body)
                    &&& b.post_digests@.len() == 1
                    &&& (b.post_digests@[0] matches DigestItem::Seal(id, sig) && id@
                        == spec_spin_engine_id() && sig@.len() == 64 && sr25519_verifies(
                        sig@,
                        header_hash@,
                        public@,
                    ))
                    &&& spec_as_spin_seal(b.post_digests@[0]) == Option::Some(
                        b.post_digests@[0]->Seal_1@,
                    )
                    &&& b.state_action == (StateAction::ApplyChanges { imported_state: false })
                    &&& b.fork_choice == Option::Some(ForkChoiceStrategy::LongestChain)
                    &&& b.post_hash is None
                },
                Result::Err(e) => e == ConsensusError::CannotSign && !self.spec_keystore().spec_has_key(
                    public@,
                ),
            },
    {
        let signature_digest_item = match seal(header_hash, public, &self.keystore) {
            Ok(item) => item,
            Err(e) => {
                return Err(e);
            },
        };
        let mut import_block = BlockImportParams::new(BlockOrigin::Own, header);
        import_block.post_digests.push(signature_digest_item);
        import_block.body = Some(body);
        import_block.state_action = StateAction::ApplyChanges { imported_state: false };
        import_block.fork_choice = Some(ForkChoiceStrategy::LongestChain);
        Ok(import_block)
    }

    /// Whether authoring is forced even while the node syncs.
    pub fn force_authoring(&self) -> (r: bool)
        ensures
            r == self.spec_force_authoring(),
    {
        self.force_authoring
    }

    /// Whether to ask the configured backoff strategy before authoring this
    /// slot: `Some` carries what the strategy is asked, `None` means author
    /// without asking — no strategy is configured, or the chain head's
    /// pre-digest does not decode, which deliberately fails open in favour of
    /// liveness.
    pub fn should_backoff(&self, slot: Slot, chain_head: &Header) -> (r: Option<BackoffQuery>)
        ensures
            match r {
                Option::Some(q) => {
                    &&& self.spec_backoff_configured()
                    &&& spec_find_pre_digest(*chain_head) matches Result::Ok(head_slot)
                        && q.chain_head_slot == head_slot
                    &&& q.chain_head_number == chain_head.number
                    &&& q.slot == slot
                },
                Option::None => !self.spec_backoff_configured() || spec_find_pre_digest(
                    *chain_head,
                ) is Err,
            },
    {
        if self.backoff_authoring_blocks {
            if let Ok(chain_head_slot) = find_pre_digest(chain_head) {
                return Some(
                    BackoffQuery {
                        chain_head_number: chain_head.number,
                        chain_head_slot,
                        slot,
                    },
                );
            }
        }
        None
    }
}

} // verus!
