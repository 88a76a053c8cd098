//! Standalone functions used within the implementation of SPIN: the
//! slot-to-author mapping, slot claiming, pre-digest and seal construction,
//! pre-digest lookup, and the single-pass header/seal check.

use vstd::prelude::*;

use crate::codec::u64_le_bytes;
use crate::crypto::{sr25519_verifies, sr25519_verify};
use crate::digests::{
    digest_item_matches, logs_match, spec_as_spin_pre_digest, spec_as_spin_seal, DigestItem,
};
use crate::header::{spec_header_hash, spec_header_hash_parts, Header};
use crate::keystore::Keystore;
use crate::{
    spec_author_index, spec_spin_engine_id, AuthorityId, ConsensusError, SessionLength, Slot,
    SpinAuxData,
};

verus! {

/// All authority identifiers are 32-byte public keys.
pub open spec fn spec_valid_authorities(authorities: Seq<AuthorityId>) -> bool {
    forall|i: int| 0 <= i < authorities.len() ==> (#[trigger] authorities[i])@.len() == 32
}

/// Get the slot author for a given slot along with authorities.
///
/// Session increment is assumed to be done by the runtime. An empty authority
/// list yields `None` whatever the session length: no author can be derived,
/// which is a normal outcome, and the list is consulted first. Once there is
/// an author to pick, a zero session length is a contract violation.
pub fn slot_author<'a>(slot: Slot, session_length: SessionLength, authorities: &'a Vec<AuthorityId>) -> (r: Option<
    &'a AuthorityId,
>)
    requires
        authorities@.len() == 0 || session_length != 0,
    ensures
        match r {
            Option::Some(author) => {
                &&& authorities@.len() > 0
                &&& *author == authorities@[spec_author_index(
                    slot,
                    session_length,
                    authorities@.len(),
                ) as int]
            },
            Option::None => authorities@.len() == 0,
        },
{
    if authorities.len() == 0 {
        return None;
    }
    let session_idx: u64 = slot / (session_length as u64);
    let idx: u64 = session_idx % (authorities.len() as u64);
    proof {
        assert(idx < authorities@.len());
        assert(idx as nat == spec_author_index(slot, session_length, authorities@.len()));
    }
    Some(&authorities[idx as usize])
}

/// Attempt to claim a slot using a keystore.
///
/// Returns the expected author's public key exactly when the slot author is
/// derivable and the keystore holds that key; `None` otherwise.
pub fn claim_slot(slot: Slot, aux_data: &SpinAuxData, keystore: &Keystore) -> (r: Option<AuthorityId>)
    requires
        aux_data.0@.len() == 0 || aux_data.1 != 0,
        keystore.well_formed(),
    ensures
        ({
            let authorities = aux_data.0@;
            match r {
                Option::Some(p) => {
                    &&& authorities.len() > 0
                    &&& p@ == authorities[spec_author_index(slot, aux_data.1, authorities.len()) as int]@
                    &&& keystore.spec_has_key(p@)
                },
                Option::None => authorities.len() == 0 || !keystore.spec_has_key(
                    authorities[spec_author_index(slot, aux_data.1, authorities.len()) as int]@,
                ),
            }
        }),
{
    let (authorities, session_length) = aux_data;
    let expected_author = slot_author(slot, *session_length, authorities);
    match expected_author {
        Some(p) => if keystore.has_keys(p) {
            Some(p.clone())
        } else {
            None
        },
        None => None,
    }
}

/// Produce the pre-runtime digest containing the slot info.
///
/// This is intended to be put into the block header prior to runtime
/// execution, so the runtime can read the slot in this way.
pub fn pre_digest(slot: Slot) -> (r: DigestItem)
    ensures
        r is PreRuntime,
        r->PreRuntime_0@ == spec_spin_engine_id(),
        r->PreRuntime_1@ == u64_le_bytes(slot),
        spec_as_spin_pre_digest(r) == Option::Some(slot),
{
    DigestItem::spin_pre_digest(slot)
}

/// Produce the seal digest item by signing the hash of a block.
///
/// Note that after this is added to a block header, the hash of the block
/// will change. Fails with `CannotSign` exactly when the keystore does not
/// hold the key.
pub fn seal(header_hash: &Vec<u8>, public: &Vec<u8>, keystore: &Keystore) -> (r: Result<
    DigestItem,
    ConsensusError,
>)
    requires
        keystore.well_formed(),
    ensures
        match r {
            Result::Ok(item) => {
                &&& keystore.spec_has_key(public@)
                &&& (item matches DigestItem::Seal(id, sig) && id@ == spec_spin_engine_id()
                    && sig@.len() == 64 && sr25519_verifies(sig@, header_hash@, public@))
                &&& spec_as_spin_seal(item) == Option::Some(item->Seal_1@)
            },
            Result::Err(e) => e == ConsensusError::CannotSign && !keystore.spec_has_key(public@),
        },
{
    let signature = match keystore.sign_with(public, header_hash) {
        Some(s) => s,
        None => {
            return Err(ConsensusError::CannotSign);
        },
    };
    Ok(DigestItem::spin_seal(signature))
}

/// Errors in pre-digest lookup.
#[derive(Clone, Copy, Debug, PartialEq, Eq, Structural)]
pub enum PreDigestLookupError {
    /// Multiple SPIN pre-runtime digests.
    MultipleHeaders,
    /// No SPIN pre-runtime digest found.
    NoDigestFound,
}

impl PreDigestLookupError {
    /// A human-readable reason, in place of a `Display` implementation.
    pub fn message(&self) -> &'static str {
        match self {
            PreDigestLookupError::MultipleHeaders => "Multiple SPIN pre-runtime headers",
            PreDigestLookupError::NoDigestFound => "No SPIN pre-runtime digest found",
        }
    }
}

/// One step per log item: a second SPIN pre-digest is an error, items of
/// other engines are ignored, and the first SPIN pre-digest is carried along.
pub open spec fn spec_scan_pre_digest(logs: Seq<DigestItem>, acc: Option<Slot>) -> Result<
    Slot,
    PreDigestLookupError,
>
    decreases logs.len(),
{
    if logs.len() == 0 {
        match acc {
            Option::Some(s) => Result::Ok(s),
            Option::None => Result::Err(PreDigestLookupError::NoDigestFound),
        }
    } else {
        let d = spec_as_spin_pre_digest(logs.first());
        if d is Some && acc is Some {
            Result::Err(PreDigestLookupError::MultipleHeaders)
        } else if d is Some {
            spec_scan_pre_digest(logs.drop_first(), d)
        } else {
            spec_scan_pre_digest(logs.drop_first(), acc)
        }
    }
}

/// What pre-digest lookup yields on a header: the unique SPIN pre-digest's
/// slot, `MultipleHeaders` past the first, or `NoDigestFound` — for every
/// header, the genesis header included.
pub open spec fn spec_find_pre_digest(header: Header) -> Result<Slot, PreDigestLookupError> {
    spec_scan_pre_digest(header.digest.logs@, Option::None)
}

/// Extract the pre-digest from a block header.
///
/// This fails if there is no SPIN pre-digest or there are multiple: a
/// well-formed header carries exactly one, whatever its number.
pub fn find_pre_digest(header: &Header) -> (r: Result<Slot, PreDigestLookupError>)
    ensures
        r == spec_find_pre_digest(*header),
{
    let mut pre_digest: Option<Slot> = None;
    let n = header.digest.logs.len();
    let ghost logs = header.digest.logs@;
    proof {
        assert(logs.skip(0) =~= logs);
    }
    for i in 0..n
        invariant
            n == logs.len(),
            logs == header.digest.logs@,
            spec_scan_pre_digest(logs, Option::None) == spec_scan_pre_digest(
                logs.skip(i as int),
                pre_digest,
            ),
    {
        proof {
            assert(logs.skip(i as int).first() == logs[i as int]);
            assert(logs.skip(i as int).drop_first() =~= logs.skip(i + 1));
        }
        let d = header.digest.logs[i].as_spin_pre_digest();
        if d.is_some() && pre_digest.is_some() {
            proof {
                assert(spec_as_spin_pre_digest(logs.skip(i as int).first()) is Some);
                assert(spec_scan_pre_digest(logs.skip(i as int), pre_digest) == Result::<
                    Slot,
                    PreDigestLookupError,
                >::Err(PreDigestLookupError::MultipleHeaders));
            }
            return Err(PreDigestLookupError::MultipleHeaders);
        } else if d.is_some() {
            pre_digest = d;
        }
    }
    proof {
        assert(logs.skip(n as int) =~= Seq::<DigestItem>::empty());
    }
    match pre_digest {
        Some(s) => Ok(s),
        None => Err(PreDigestLookupError::NoDigestFound),
    }
}

/// Errors in slot and seal verification.
pub enum SealVerificationError {
    /// The header's slot is in the future; the header is returned with its
    /// seal restored so that it can be re-verified later.
    Deferred(Header, Slot),
    /// The header has no seal digest.
    Unsealed,
    /// The header has a malformed seal.
    BadSeal,
    /// The header has a bad signature.
    BadSignature,
    /// No slot author found for the provided slot.
    SlotAuthorNotFound,
    /// The header has no valid slot pre-digest.
    InvalidPreDigest(PreDigestLookupError),
}

impl SealVerificationError {
    /// A human-readable reason, in place of a `Display` implementation.
    pub fn message(&self) -> &'static str {
        match self {
            SealVerificationError::Deferred(_, _) => "Header slot is in the future",
            SealVerificationError::Unsealed => "Header is unsealed.",
            SealVerificationError::BadSeal => "Header has a malformed seal",
            SealVerificationError::BadSignature => "Header has a bad signature",
            SealVerificationError::SlotAuthorNotFound => "No slot author for provided slot",
            SealVerificationError::InvalidPreDigest(_) => "Header has no valid slot pre-digest",
        }
    }
}

/// The possible outcomes of the header/seal check, over the header's parts.
pub enum SpecCheckOutcome {
    /// The header is well-sealed: its slot is due, and the seal signature is
    /// valid under the expected author for that slot.
    Checked { slot: Slot, sig: Seq<u8> },
    /// The header's slot lies beyond the verifier's tolerance.
    Deferred { slot: Slot },
    /// The header has no digest items at all, so no seal to pop.
    Unsealed,
    /// The last digest item is not a SPIN seal.
    BadSeal,
    /// The remaining log does not carry exactly one SPIN pre-digest.
    InvalidPreDigest { e: PreDigestLookupError },
    /// The authority list is empty, so no author can be derived.
    SlotAuthorNotFound,
    /// The seal's signature does not verify under the expected author.
    BadSignature,
}

/// The single-pass header/seal check, as a function of the header's parts:
/// pop the last digest item as the seal, find the unique pre-digest slot in
/// what remains, defer future slots, and otherwise check the seal signature
/// over the pre-hash against the expected author.
pub open spec fn spec_check_header_parts(
    slot_now: Slot,
    number: u64,
    parent_hash: Seq<u8>,
    state_root: Seq<u8>,
    extrinsics_root: Seq<u8>,
    logs: Seq<DigestItem>,
    authorities: Seq<Seq<u8>>,
    session_length: SessionLength,
) -> SpecCheckOutcome
    recommends
        session_length != 0,
{
    if logs.len() == 0 {
        SpecCheckOutcome::Unsealed
    } else {
        match spec_as_spin_seal(logs.last()) {
            Option::None => SpecCheckOutcome::BadSeal,
            Option::Some(sig) => match spec_scan_pre_digest(logs.drop_last(), Option::None) {
                Result::Err(e) => SpecCheckOutcome::InvalidPreDigest { e },
                Result::Ok(slot) => if slot > slot_now {
                    SpecCheckOutcome::Deferred { slot }
                } else if authorities.len() == 0 {
                    SpecCheckOutcome::SlotAuthorNotFound
                } else if sr25519_verifies(
                    sig,
                    spec_header_hash_parts(number, parent_hash, state_root, extrinsics_root, logs.drop_last()),
                    authorities[spec_author_index(slot, session_length, authorities.len()) as int],
                ) {
                    SpecCheckOutcome::Checked { slot, sig }
                } else {
                    SpecCheckOutcome::BadSignature
                },
            },
        }
    }
}

/// The header/seal check on a header value.
pub open spec fn spec_check_header(
    slot_now: Slot,
    header: Header,
    authorities: Seq<Seq<u8>>,
    session_length: SessionLength,
) -> SpecCheckOutcome {
    spec_check_header_parts(
        slot_now,
        header.number,
        header.parent_hash@,
        header.state_root@,
        header.extrinsics_root@,
        header.digest.logs@,
        authorities,
        session_length,
    )
}

/// Check that a header has been signed by the right key. If the slot is too
/// far in the future, `Deferred` is returned with the header restored to its
/// sealed form. On success, returns the pre-header (without the seal), the
/// slot, and the digest item containing the seal.
///
/// Note that this does not check for equivocations; `check_equivocation` is
/// recommended for that purpose. The returned digest item always yields
/// `Some` from `as_spin_seal`.
pub fn check_header_slot_and_seal(slot_now: Slot, header: Header, aux_data: &SpinAuxData) -> (r: Result<
    (Header, Slot, DigestItem),
    SealVerificationError,
>)
    requires
        aux_data.1 != 0,
        spec_valid_authorities(aux_data.0@),
    ensures
        ({
            let outcome = spec_check_header(slot_now, header, aux_data.0.deep_view(), aux_data.1);
            match r {
                Result::Ok((pre, slot, seal)) => {
                    &&& outcome == (SpecCheckOutcome::Checked { slot, sig: spec_as_spin_seal(seal)->0 })
                    &&& header.digest.logs@.len() > 0
                    &&& seal == header.digest.logs@.last()
                    &&& spec_as_spin_seal(seal) is Some
                    &&& pre.number == header.number
                    &&& pre.parent_hash == header.parent_hash
                    &&& pre.state_root == header.state_root
                    &&& pre.extrinsics_root == header.extrinsics_root
                    &&& pre.digest.logs@ == header.digest.logs@.drop_last()
                    &&& spec_find_pre_digest(pre) == Result::<Slot, PreDigestLookupError>::Ok(slot)
                    &&& slot <= slot_now
                },
                Result::Err(SealVerificationError::Deferred(h, slot)) => {
                    &&& outcome == (SpecCheckOutcome::Deferred { slot })
                    &&& slot > slot_now
                    &&& h.number == header.number
                    &&& h.parent_hash == header.parent_hash
                    &&& h.state_root == header.state_root
                    &&& h.extrinsics_root == header.extrinsics_root
                    &&& h.digest.logs@ == header.digest.logs@
                },
                Result::Err(SealVerificationError::Unsealed) => outcome is Unsealed,
                Result::Err(SealVerificationError::BadSeal) => outcome is BadSeal,
                Result::Err(SealVerificationError::InvalidPreDigest(e)) => outcome
                    == (SpecCheckOutcome::InvalidPreDigest { e }),
                Result::Err(SealVerificationError::SlotAuthorNotFound) => outcome is SlotAuthorNotFound,
                Result::Err(SealVerificationError::BadSignature) => outcome is BadSignature,
            }
        }),
{
    let mut header = header;
    let ghost original = header;
    let seal = match header.digest.logs.pop() {
        Some(s) => s,
        None => {
            return Err(SealVerificationError::Unsealed);
        },
    };
    let sig = match seal.as_spin_seal() {
        Some(s) => s,
        None => {
            return Err(SealVerificationError::BadSeal);
        },
    };
    let slot = match find_pre_digest(&header) {
        Ok(s) => s,
        Err(e) => {
            return Err(SealVerificationError::InvalidPreDigest(e));
        },
    };
    if slot > slot_now {
        header.digest.logs.push(seal);
        proof {
            assert(header.digest.logs@ =~= original.digest.logs@);
        }
        return Err(SealVerificationError::Deferred(header, slot));
    }
    let (authorities, session_length) = aux_data;
    let expected_author = match slot_author(slot, *session_length, authorities) {
        Some(a) => a,
        None => {
            return Err(SealVerificationError::SlotAuthorNotFound);
        },
    };
    let pre_hash = header.hash();
    proof {
        let idx = spec_author_index(slot, aux_data.1, aux_data.0@.len()) as int;
        assert(aux_data.0.deep_view()[idx] == aux_data.0@[idx]@);
    }
    if sr25519_verify(&sig, &pre_hash, expected_author) {
        Ok((header, slot, seal))
    } else {
        Err(SealVerificationError::BadSignature)
    }
}

/// Law: the slot author is periodic in the slot, with period
/// `session_length * n_authorities`: adding any whole number of periods to a
/// slot (within the slot type's range) leaves the authority index unchanged.
pub proof fn lemma_slot_author_periodic(
    slot: Slot,
    session_length: SessionLength,
    n_authorities: nat,
    periods: nat,
)
    requires
        session_length != 0,
        n_authorities > 0,
        slot + (session_length as nat) * n_authorities * periods <= u64::MAX,
    ensures
        spec_author_index(
            ((slot as nat) + (session_length as nat) * n_authorities * periods) as u64,
            session_length,
            n_authorities,
        ) == spec_author_index(slot, session_length, n_authorities),
{
    let s = slot as int;
    let d = session_length as int;
    let n = n_authorities as int;
    let p = periods as int;
    let jump = d * n * p;
    let s2 = s + jump;
    vstd::arithmetic::div_mod::lemma_fundamental_div_mod(s, d);
    vstd::arithmetic::div_mod::lemma_mod_bound(s, d);
    assert(d * n * p == d * (n * p)) by {
        vstd::arithmetic::mul::lemma_mul_is_associative(d, n, p);
    }
    assert(s2 == d * (s / d + n * p) + s % d) by {
        vstd::arithmetic::mul::lemma_mul_is_distributive_add(d, s / d, n * p);
    }
    assert(s2 / d == s / d + n * p) by {
        vstd::arithmetic::div_mod::lemma_div_multiples_vanish_fancy(s / d + n * p, s % d, d);
    }
    assert((s / d + n * p) % n == (s / d) % n) by {
        vstd::arithmetic::mul::lemma_mul_is_commutative(n, p);
        vstd::arithmetic::div_mod::lemma_mod_multiples_vanish(p, s / d, n);
    }
}

/// Law: within one session the slot author is constant: starting from a slot
/// at a session boundary, every slot of that session maps to the same
/// authority index.
pub proof fn lemma_slot_author_constant_in_session(
    session_start: Slot,
    session_length: SessionLength,
    n_authorities: nat,
    offset: u64,
)
    requires
        session_length != 0,
        n_authorities > 0,
        (session_start as nat) % (session_length as nat) == 0,
        offset < session_length,
        session_start + offset <= u64::MAX,
    ensures
        spec_author_index((session_start + offset) as u64, session_length, n_authorities)
            == spec_author_index(session_start, session_length, n_authorities),
{
    let k = session_start as int;
    let d = session_length as int;
    vstd::arithmetic::div_mod::lemma_fundamental_div_mod(k, d);
    assert((k + offset) / d == k / d) by {
        vstd::arithmetic::div_mod::lemma_div_multiples_vanish_fancy(k / d, offset as int, d);
    }
}

/// Logs equal item by item scan to the same pre-digest result.
proof fn lemma_scan_respects_matches(a: Seq<DigestItem>, b: Seq<DigestItem>, acc: Option<Slot>)
    requires
        logs_match(a, b),
    ensures
        spec_scan_pre_digest(a, acc) == spec_scan_pre_digest(b, acc),
    decreases a.len(),
{
    if a.len() > 0 {
        assert(digest_item_matches(a[0], b[0]));
        crate::digests::lemma_pre_digest_respects_matches(a.first(), b.first());
        assert(logs_match(a.drop_first(), b.drop_first())) by {
            assert forall|i: int| 0 <= i < a.drop_first().len() implies digest_item_matches(
                #[trigger] a.drop_first()[i],
                b.drop_first()[i],
            ) by {
                assert(a.drop_first()[i] == a[i + 1]);
                assert(b.drop_first()[i] == b[i + 1]);
            }
        }
        let d = spec_as_spin_pre_digest(a.first());
        if d is Some && acc is Some {
        } else if d is Some {
            lemma_scan_respects_matches(a.drop_first(), b.drop_first(), d);
        } else {
            lemma_scan_respects_matches(a.drop_first(), b.drop_first(), acc);
        }
    }
}

/// The header/seal check depends only on the header's content: digest logs
/// equal item by item at view level give the same outcome.
pub proof fn lemma_check_respects_matches(
    slot_now: Slot,
    number: u64,
    parent_hash: Seq<u8>,
    state_root: Seq<u8>,
    extrinsics_root: Seq<u8>,
    logs_a: Seq<DigestItem>,
    logs_b: Seq<DigestItem>,
    authorities: Seq<Seq<u8>>,
    session_length: SessionLength,
)
    requires
        logs_match(logs_a, logs_b),
    ensures
        spec_check_header_parts(slot_now, number, parent_hash, state_root, extrinsics_root, logs_a, authorities, session_length)
            == spec_check_header_parts(slot_now, number, parent_hash, state_root, extrinsics_root, logs_b, authorities, session_length),
{
    if logs_a.len() > 0 {
        assert(digest_item_matches(logs_a[logs_a.len() - 1], logs_b[logs_b.len() - 1]));
        crate::digests::lemma_seal_respects_matches(logs_a.last(), logs_b.last());
        assert(logs_match(logs_a.drop_last(), logs_b.drop_last())) by {
            assert forall|i: int| 0 <= i < logs_a.drop_last().len() implies digest_item_matches(
                #[trigger] logs_a.drop_last()[i],
                logs_b.drop_last()[i],
            ) by {
                assert(logs_a.drop_last()[i] == logs_a[i]);
                assert(logs_b.drop_last()[i] == logs_b[i]);
            }
        }
        lemma_scan_respects_matches(logs_a.drop_last(), logs_b.drop_last(), Option::None);
        crate::header::lemma_encode_logs_respects_matches(logs_a.drop_last(), logs_b.drop_last());
    }
}

/// Law: rejection is idempotent. A header whose check failed as `Unsealed`,
/// `BadSeal` or `BadSignature`, presented again with the same content — even
/// as a different copy of the same bytes — fails the same way: the check
/// keeps no hidden state.
pub proof fn lemma_rejection_idempotent(
    slot_now: Slot,
    header_a: Header,
    header_b: Header,
    authorities: Seq<Seq<u8>>,
    session_length: SessionLength,
)
    requires
        crate::header::header_matches(header_a, header_b),
        spec_check_header(slot_now, header_a, authorities, session_length) is Unsealed
            || spec_check_header(slot_now, header_a, authorities, session_length) is BadSeal
            || spec_check_header(slot_now, header_a, authorities, session_length) is BadSignature,
    ensures
        spec_check_header(slot_now, header_b, authorities, session_length) == spec_check_header(
            slot_now,
            header_a,
            authorities,
            session_length,
        ),
{
    lemma_check_respects_matches(
        slot_now,
        header_a.number,
        header_a.parent_hash@,
        header_a.state_root@,
        header_a.extrinsics_root@,
        header_a.digest.logs@,
        header_b.digest.logs@,
        authorities,
        session_length,
    );
}

/// Law: a deferred header is intact — its seal is still its last digest item
/// — and presenting the same header once the verifier's slot has advanced to
/// the header's slot no longer defers it: deferral is temporary, never a
/// permanent rejection.
pub proof fn lemma_deferred_header_reverifiable(
    slot_now: Slot,
    later_slot_now: Slot,
    header: Header,
    authorities: Seq<Seq<u8>>,
    session_length: SessionLength,
    slot: Slot,
)
    requires
        spec_check_header(slot_now, header, authorities, session_length) == (SpecCheckOutcome::Deferred { slot }),
        later_slot_now >= slot,
    ensures
        header.digest.logs@.len() > 0,
        spec_as_spin_seal(header.digest.logs@.last()) is Some,
        slot > slot_now,
        !(spec_check_header(later_slot_now, header, authorities, session_length) is Deferred),
{
}

/// Law: sealing round-trips through verification. Take a pre-header that
/// carries exactly one SPIN pre-digest, for a slot that is due, and extend it
/// with a seal item whose signature is valid over the pre-header's hash under
/// the slot's expected author. The check passes the sealed header, and the
/// content it signs — the pre-header, the sealed header with its seal
/// stripped — hashes to the very value the signature was checked against.
pub proof fn lemma_seal_verify_roundtrip(
    slot_now: Slot,
    pre: Header,
    seal_item: DigestItem,
    authorities: Seq<Seq<u8>>,
    session_length: SessionLength,
    slot: Slot,
)
    requires
        session_length != 0,
        authorities.len() > 0,
        spec_find_pre_digest(pre) == Result::<Slot, PreDigestLookupError>::Ok(slot),
        slot <= slot_now,
        spec_as_spin_seal(seal_item) is Some,
        sr25519_verifies(
            spec_as_spin_seal(seal_item)->0,
            spec_header_hash(pre),
            authorities[spec_author_index(slot, session_length, authorities.len()) as int],
        ),
    ensures
        spec_check_header_parts(
            slot_now,
            pre.number,
            pre.parent_hash@,
            pre.state_root@,
            pre.extrinsics_root@,
            pre.digest.logs@.push(seal_item),
            authorities,
            session_length,
        ) == (SpecCheckOutcome::Checked { slot, sig: spec_as_spin_seal(seal_item)->0 }),
{
    let logs = pre.digest.logs@.push(seal_item);
    assert(logs.last() == seal_item);
    assert(logs.drop_last() =~= pre.digest.logs@);
}

} // verus!
