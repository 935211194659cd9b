//! Two-lane EIP-1559 selection: a priority lane, quoted at a multiple of
//! the base fee and capped to a share of the block, is served before the
//! normal lane, which takes whatever block space is left.

use std::sync::Arc;

use vstd::prelude::*;

use crate::model::{TierId, Transaction};
use crate::tx_pricing::history::SingleTierFeeHistory;
use crate::tx_pricing::inclusion::{
    candidates_for_tier, fill_greedy, lemma_fill_within_budgets, sort_by_submission,
    spec_candidates, spec_fill, spec_sort_by_submission, total_bytes,
};
use crate::tx_pricing::{PricingSnapshot, Tier, TierLane, TierQuote};

verus! {

/// Id of the priority lane's tier.
pub open spec fn spec_priority_tier_id() -> TierId {
    TierId(0)
}

/// Id of the normal lane's tier.
pub open spec fn spec_normal_tier_id() -> TierId {
    TierId(1)
}

/// Quote of the priority lane.
pub open spec fn spec_priority_quote(priority_price_per_byte: u64, priority_delay: u64) -> TierQuote {
    TierQuote {
        id: spec_priority_tier_id(),
        lane: TierLane::Ranking,
        version_created_slot: 0,
        delay: priority_delay,
        price_per_byte: priority_price_per_byte,
        base_fee: 0,
    }
}

/// Quote of the normal lane.
pub open spec fn spec_normal_quote(base_fee_per_byte: u64, normal_delay: u64) -> TierQuote {
    TierQuote {
        id: spec_normal_tier_id(),
        lane: TierLane::Ranking,
        version_created_slot: 0,
        delay: normal_delay,
        price_per_byte: base_fee_per_byte,
        base_fee: 0,
    }
}

/// The two quotes of a priority-lane market: priority first, then normal.
pub fn priority_lane_snapshot(
    priority_price_per_byte: u64,
    base_fee_per_byte: u64,
    priority_delay: u64,
    normal_delay: u64,
) -> (r: PricingSnapshot)
    ensures
        r.tiers@ == seq![
            spec_priority_quote(priority_price_per_byte, priority_delay),
            spec_normal_quote(base_fee_per_byte, normal_delay),
        ],
{
    let mut tiers: Vec<TierQuote> = Vec::new();
    tiers.push(
        TierQuote {
            id: TierId(0),
            lane: TierLane::Ranking,
            version_created_slot: 0,
            delay: priority_delay,
            price_per_byte: priority_price_per_byte,
            base_fee: 0,
        },
    );
    tiers.push(
        TierQuote {
            id: TierId(1),
            lane: TierLane::Ranking,
            version_created_slot: 0,
            delay: normal_delay,
            price_per_byte: base_fee_per_byte,
            base_fee: 0,
        },
    );
    PricingSnapshot { tiers }
}

/// The two synthetic tiers a priority-lane market reports: the priority
/// lane with `priority_capacity`, the normal lane with the whole block.
pub fn priority_lane_tiers(
    priority_price_per_byte: u64,
    base_fee_per_byte: u64,
    priority_delay: u64,
    normal_delay: u64,
    priority_capacity: u64,
    block_capacity: u64,
) -> (r: Vec<Tier>)
    ensures
        r@ == seq![
            Tier {
                id: spec_priority_tier_id(),
                lane: TierLane::Ranking,
                capacity: priority_capacity,
                version_created_slot: 0,
                delay: priority_delay,
                price: priority_price_per_byte,
                used_capacity: 0,
                tx_count: 0,
            },
            Tier {
                id: spec_normal_tier_id(),
                lane: TierLane::Ranking,
                capacity: block_capacity,
                version_created_slot: 0,
                delay: normal_delay,
                price: base_fee_per_byte,
                used_capacity: 0,
                tx_count: 0,
            },
        ],
{
    let mut tiers: Vec<Tier> = Vec::new();
    tiers.push(
        Tier {
            id: TierId(0),
            lane: TierLane::Ranking,
            capacity: priority_capacity,
            version_created_slot: 0,
            delay: priority_delay,
            price: priority_price_per_byte,
            used_capacity: 0,
            tx_count: 0,
        },
    );
    tiers.push(
        Tier {
            id: TierId(1),
            lane: TierLane::Ranking,
            capacity: block_capacity,
            version_created_slot: 0,
            delay: normal_delay,
            price: base_fee_per_byte,
            used_capacity: 0,
            tx_count: 0,
        },
    );
    tiers
}

/// The priority lane's share of a block: its candidates in submission
/// order, greedily, within `priority_capacity` and the block.
pub open spec fn spec_priority_pass(
    txs: Seq<Arc<Transaction>>,
    history: SingleTierFeeHistory,
    slot: u64,
    block_capacity: u64,
    priority_price_per_byte: u64,
    priority_delay: u64,
    priority_capacity: u64,
) -> (Seq<Arc<Transaction>>, u64, u64) {
    spec_fill(
        spec_sort_by_submission(
            spec_candidates(
                txs,
                spec_priority_quote(priority_price_per_byte, priority_delay),
                slot,
                Some(history),
                priority_delay,
            ),
        ),
        priority_capacity,
        block_capacity,
    )
}

/// Block selection of a priority-lane market: the priority pass, then the
/// normal lane's candidates, in submission order, within what remains of
/// the block. A lane's candidates prefer that lane's tier and posted a fee
/// that covers a quote of it, with the lane's delay as grace.
pub open spec fn spec_select_priority_lane(
    txs: Seq<Arc<Transaction>>,
    history: SingleTierFeeHistory,
    slot: u64,
    block_capacity: u64,
    priority_price_per_byte: u64,
    base_fee_per_byte: u64,
    priority_delay: u64,
    normal_delay: u64,
    priority_capacity: u64,
) -> Seq<Arc<Transaction>> {
    let (priority, _, remaining_block) = spec_priority_pass(
        txs,
        history,
        slot,
        block_capacity,
        priority_price_per_byte,
        priority_delay,
        priority_capacity,
    );
    let normal = spec_fill(
        spec_sort_by_submission(
            spec_candidates(
                txs,
                spec_normal_quote(base_fee_per_byte, normal_delay),
                slot,
                Some(history),
                normal_delay,
            ),
        ),
        remaining_block,
        remaining_block,
    ).0;
    priority + normal
}

/// Selects a block's transactions for a priority-lane market; see
/// `spec_select_priority_lane`.
pub fn select_priority_lane_transactions(
    txs: &[Arc<Transaction>],
    history: &SingleTierFeeHistory,
    slot: u64,
    block_capacity: u64,
    priority_price_per_byte: u64,
    base_fee_per_byte: u64,
    priority_delay: u64,
    normal_delay: u64,
    priority_capacity: u64,
) -> (r: Vec<Arc<Transaction>>)
    ensures
        r@ == spec_select_priority_lane(
            txs@,
            *history,
            slot,
            block_capacity,
            priority_price_per_byte,
            base_fee_per_byte,
            priority_delay,
            normal_delay,
            priority_capacity,
        ),
{
    let priority_quote = TierQuote {
        id: TierId(0),
        lane: TierLane::Ranking,
        version_created_slot: 0,
        delay: priority_delay,
        price_per_byte: priority_price_per_byte,
        base_fee: 0,
    };
    let normal_quote = TierQuote {
        id: TierId(1),
        lane: TierLane::Ranking,
        version_created_slot: 0,
        delay: normal_delay,
        price_per_byte: base_fee_per_byte,
        base_fee: 0,
    };
    let priority_candidates = sort_by_submission(
        candidates_for_tier(txs, &priority_quote, slot, Some(history), priority_delay),
    );
    let normal_candidates = sort_by_submission(
        candidates_for_tier(txs, &normal_quote, slot, Some(history), normal_delay),
    );
    let mut included: Vec<Arc<Transaction>> = Vec::new();
    let (_, remaining_block) = fill_greedy(
        priority_candidates,
        priority_capacity,
        block_capacity,
        &mut included,
    );
    let _ = fill_greedy(normal_candidates, remaining_block, remaining_block, &mut included);
    assert(included@ =~= spec_select_priority_lane(
        txs@,
        *history,
        slot,
        block_capacity,
        priority_price_per_byte,
        base_fee_per_byte,
        priority_delay,
        normal_delay,
        priority_capacity,
    ));
    included
}

/// The priority lane never takes more than its capacity, and the whole
/// selection never more than the block.
pub proof fn lemma_priority_lane_within_capacities(
    txs: Seq<Arc<Transaction>>,
    history: SingleTierFeeHistory,
    slot: u64,
    block_capacity: u64,
    priority_price_per_byte: u64,
    base_fee_per_byte: u64,
    priority_delay: u64,
    normal_delay: u64,
    priority_capacity: u64,
)
    ensures
        total_bytes(
            spec_priority_pass(
                txs,
                history,
                slot,
                block_capacity,
                priority_price_per_byte,
                priority_delay,
                priority_capacity,
            ).0,
        ) <= priority_capacity,
        total_bytes(
            spec_select_priority_lane(
                txs,
                history,
                slot,
                block_capacity,
                priority_price_per_byte,
                base_fee_per_byte,
                priority_delay,
                normal_delay,
                priority_capacity,
            ),
        ) <= block_capacity,
{
    let ps = spec_sort_by_submission(
        spec_candidates(
            txs,
            spec_priority_quote(priority_price_per_byte, priority_delay),
            slot,
            Some(history),
            priority_delay,
        ),
    );
    lemma_fill_within_budgets(ps, priority_capacity, block_capacity);
    let (p, _, rb) = spec_fill(ps, priority_capacity, block_capacity);
    let ns = spec_sort_by_submission(
        spec_candidates(
            txs,
            spec_normal_quote(base_fee_per_byte, normal_delay),
            slot,
            Some(history),
            normal_delay,
        ),
    );
    lemma_fill_within_budgets(ns, rb, rb);
    crate::tx_pricing::pool::lemma_total_bytes_concat(p, spec_fill(ns, rb, rb).0);
}


/// Total bytes of the transactions that prefer `tier` (all of them when
/// `tier` is `None`).
pub open spec fn spec_bytes_preferring(txs: Seq<Arc<Transaction>>, tier: Option<TierId>) -> int
    decreases txs.len(),
{
    if txs.len() == 0 {
        0
    } else {
        spec_bytes_preferring(txs.drop_last(), tier) + if tier is None || txs.last().tier_preference
            == tier {
            txs.last().bytes as int
        } else {
            0
        }
    }
}

proof fn lemma_bytes_preferring_monotone(txs: Seq<Arc<Transaction>>, tier: Option<TierId>, k: int)
    requires
        0 <= k <= txs.len(),
    ensures
        spec_bytes_preferring(txs.take(k), tier) <= spec_bytes_preferring(txs, tier),
    decreases txs.len() - k,
{
    if k < txs.len() {
        lemma_bytes_preferring_monotone(txs, tier, k + 1);
        assert(txs.take(k + 1).drop_last() == txs.take(k));
    } else {
        assert(txs.take(k) == txs);
    }
}

/// Total bytes of the transactions that prefer `tier` (all of them when
/// `tier` is `None`); `None` when the total does not fit in a `u64`.
pub fn checked_bytes_preferring(txs: &[Arc<Transaction>], tier: Option<TierId>) -> (r: Option<u64>)
    ensures
        r matches Some(b) ==> b == spec_bytes_preferring(txs@, tier),
        r is None <==> spec_bytes_preferring(txs@, tier) > u64::MAX,
{
    let mut sum: u64 = 0;
    let n = txs.len();
    for i in 0..n
        invariant
            n == txs@.len(),
            sum == spec_bytes_preferring(txs@.take(i as int), tier),
    {
        proof {
            assert(txs@.take(i + 1).drop_last() == txs@.take(i as int));
            assert(txs@.take(i + 1).last() == txs@[i as int]);
        }
        let counted = match tier {
            None => true,
            Some(t) => match txs[i].tier_preference {
                Some(p) => p.0 == t.0,
                None => false,
            },
        };
        if counted {
            match sum.checked_add(txs[i].bytes) {
                Some(v) => {
                    sum = v;
                },
                None => {
                    proof {
                        lemma_bytes_preferring_monotone(txs@, tier, i + 1);
                    }
                    return None;
                },
            }
        }
    }
    assert(txs@.take(n as int) == txs@);
    Some(sum)
}

} // verus!
