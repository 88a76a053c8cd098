//! Host-configuration pieces that carry their own small computations: the
//! dynamic session period, and the fee-distribution decisions.

use vstd::prelude::*;

use crate::SessionLength;

verus! {

/// An account identifier, as raw bytes.
pub type AccountId = Vec<u8>;

/// A balance of the chain's currency.
pub type Balance = u128;

/// How many leader tenures one validator session spans.
pub const LEADER_TENURES_PER_SESSION: u32 = 30;

/// Provides a dynamic session length, to reflect changes in the leader's
/// tenure duration.
pub struct SessionPeriodLength;

impl SessionPeriodLength {
    /// The validator-session period in blocks: the leader tenure length
    /// times the tenures per session.
    pub fn get(session_length: SessionLength) -> (r: u64)
        ensures
            r == session_length * LEADER_TENURES_PER_SESSION,
    {
        proof {
            assert(session_length as u64 <= 0xffff_ffffu64);
        }
        (session_length as u64) * 30
    }
}

/// Logic for the block author to receive a credit.
pub struct ToAuthor;

impl ToAuthor {
    /// Resolve a non-zero credit to the block author: the author, if one is
    /// known, receives the full amount; without an author the credit is
    /// dropped.
    pub fn on_nonzero_unbalanced(amount: Balance, author: Option<AccountId>) -> (r: Option<
        (AccountId, Balance),
    >)
        requires
            amount != 0,
        ensures
            match r {
                Option::Some((who, credited)) => (author matches Option::Some(a) && who == a)
                    && credited == amount,
                Option::None => author is None,
            },
    {
        match author {
            Some(who) => Some((who, amount)),
            None => None,
        }
    }
}

/// Fee distribution: fees are burned in full; the tip, if any, goes in full
/// to the block author.
pub struct BurnFeesAndTipToAuthor;

impl BurnFeesAndTipToAuthor {
    /// Settle the fees-then-tips pair of one transaction: the burned amount,
    /// and the credit the author receives. Tips are only considered where
    /// fees were present, and a zero tip credits nobody.
    pub fn on_unbalanceds(
        fees: Option<Balance>,
        tips: Option<Balance>,
        author: Option<AccountId>,
    ) -> (r: (Balance, Option<(AccountId, Balance)>))
        ensures
            r.0 == match fees {
                Option::Some(f) => f,
                Option::None => 0,
            },
            match r.1 {
                Option::Some((who, credited)) => {
                    &&& fees is Some
                    &&& (tips matches Option::Some(t) && credited == t && t != 0)
                    &&& (author matches Option::Some(a) && who == a)
                },
                Option::None => fees is None || tips is None || tips == Option::Some(0 as Balance)
                    || author is None,
            },
    {
        match fees {
            Some(fee_amount) => {
                // For fees, 100% to void.
                let burned = fee_amount;
                match tips {
                    Some(tip_amount) => {
                        if tip_amount != 0 {
                            // For tips, if any, 100% to author.
                            (burned, ToAuthor::on_nonzero_unbalanced(tip_amount, author))
                        } else {
                            (burned, None)
                        }
                    },
                    None => (burned, None),
                }
            },
            None => (0, None),
        }
    }
}

/// Asset identifiers for benchmarking: offsets from the genesis
/// auto-increment start.
pub struct AssetsBenchmarkHelper;

impl AssetsBenchmarkHelper {
    /// The asset identifier at the given offset from the configured genesis
    /// start, which defaults to zero.
    pub fn create_asset_id_parameter(genesis_next_asset_id: Option<u32>, id: u32) -> (r: u32)
        requires
            (match genesis_next_asset_id {
                Option::Some(next) => next,
                Option::None => 0,
            }) + id <= u32::MAX,
        ensures
            r == (match genesis_next_asset_id {
                Option::Some(next) => next,
                Option::None => 0,
            }) + id,
    {
        let base = match genesis_next_asset_id {
            Some(next) => next,
            None => 0,
        };
        base + id
    }
}

} // verus!
