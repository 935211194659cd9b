//! The tier list of a pool: its initial shape under each block-selection
//! policy, fresh ids, adding and removing the slowest tier, and views of
//! one lane.

use vstd::prelude::*;

use crate::arith::spec_sat_add_u64;
use crate::model::TierId;
use crate::tx_pricing::pool::spec_min;
use crate::tx_pricing::selection::spec_max1;
use crate::tx_pricing::{PricingSnapshot, Tier, TierBlockSelectionPolicy, TierLane, TierQuote};

verus! {

/// Largest tier id in `tiers`, 0 when there are none.
pub open spec fn spec_max_tier_id(tiers: Seq<Tier>) -> u64
    decreases tiers.len(),
{
    if tiers.len() == 0 {
        0
    } else {
        let m = spec_max_tier_id(tiers.drop_last());
        if tiers.last().id.0 > m {
            tiers.last().id.0
        } else {
            m
        }
    }
}

proof fn lemma_max_tier_id_bounds(tiers: Seq<Tier>)
    ensures
        forall|i: int| 0 <= i < tiers.len() ==> #[trigger] tiers[i].id.0 <= spec_max_tier_id(tiers),
    decreases tiers.len(),
{
    if tiers.len() > 0 {
        lemma_max_tier_id_bounds(tiers.drop_last());
        assert forall|i: int| 0 <= i < tiers.len() implies #[trigger] tiers[i].id.0
            <= spec_max_tier_id(tiers) by {
            if i < tiers.len() - 1 {
                assert(tiers.drop_last()[i] == tiers[i]);
            }
        }
    }
}

/// Id for a new tier: one past the largest id in use (saturating).
pub fn next_tier_id(tiers: &[Tier]) -> (r: TierId)
    ensures
        r.0 == spec_sat_add_u64(spec_max_tier_id(tiers@), 1),
{
    let mut m: u64 = 0;
    let n = tiers.len();
    for i in 0..n
        invariant
            n == tiers@.len(),
            m == spec_max_tier_id(tiers@.take(i as int)),
    {
        proof {
            assert(tiers@.take(i + 1).drop_last() == tiers@.take(i as int));
            assert(tiers@.take(i + 1).last() == tiers@[i as int]);
        }
        if tiers[i].id.0 > m {
            m = tiers[i].id.0;
        }
    }
    assert(tiers@.take(n as int) == tiers@);
    TierId(m.saturating_add(1))
}

/// A new tier's id is fresh: unless the largest id in use is `u64::MAX`,
/// no tier has it, and it is above every id in use.
pub proof fn lemma_next_tier_id_is_fresh(tiers: Seq<Tier>)
    requires
        spec_max_tier_id(tiers) < u64::MAX,
    ensures
        forall|i: int|
            0 <= i < tiers.len() ==> #[trigger] tiers[i].id.0 < spec_sat_add_u64(
                spec_max_tier_id(tiers),
                1,
            ),
{
    lemma_max_tier_id_bounds(tiers);
}

/// A tier with nothing used yet.
pub open spec fn spec_fresh_tier(
    id: u64,
    lane: TierLane,
    capacity: u64,
    version_created_slot: u64,
    delay: u64,
    price: u64,
) -> Tier {
    Tier {
        id: TierId(id),
        lane,
        capacity,
        version_created_slot,
        delay,
        price,
        used_capacity: 0,
        tx_count: 0,
    }
}

/// Initial tiers of a pool. `tier1_capacity` is the configured capacity of
/// tier 1 and `rb_tier0_capacity` the RB reservation, each rounded from
/// its fraction of `total_capacity`; both are capped at `total_capacity`.
/// Every tier starts at price `max(new_tier_price, 1)`.
pub open spec fn spec_initial_tiers(
    policy: TierBlockSelectionPolicy,
    default_lane: TierLane,
    total_capacity: u64,
    new_tier_price: u64,
    initial_tier_delay: u64,
    tier1_capacity: u64,
    rb_tier0_capacity: u64,
) -> Seq<Tier> {
    let price = spec_max1(new_tier_price);
    match policy {
        TierBlockSelectionPolicy::NaiveRbEbTwoTier => {
            let c1 = spec_min(tier1_capacity, total_capacity);
            seq![
                spec_fresh_tier(0, TierLane::Ranking, (total_capacity - c1) as u64, 0, initial_tier_delay, price),
                spec_fresh_tier(1, TierLane::Endorser, c1, 0, spec_max1(initial_tier_delay), price),
            ]
        },
        TierBlockSelectionPolicy::RbTier0Reserved => seq![
            spec_fresh_tier(
                0,
                TierLane::Ranking,
                spec_min(rb_tier0_capacity, total_capacity),
                0,
                initial_tier_delay,
                price,
            ),
            spec_fresh_tier(1, TierLane::Endorser, total_capacity, 0, initial_tier_delay, price),
        ],
        TierBlockSelectionPolicy::Shared => seq![
            spec_fresh_tier(0, default_lane, total_capacity, 0, initial_tier_delay, price),
        ],
        _ => seq![
            spec_fresh_tier(
                if default_lane == TierLane::Ranking {
                    0
                } else {
                    1
                },
                default_lane,
                total_capacity,
                0,
                initial_tier_delay,
                price,
            ),
        ],
    }
}

/// Initial tiers of a pool; see `spec_initial_tiers`.
pub fn initial_tiers(
    policy: TierBlockSelectionPolicy,
    default_lane: TierLane,
    total_capacity: u64,
    new_tier_price: u64,
    initial_tier_delay: u64,
    tier1_capacity: u64,
    rb_tier0_capacity: u64,
) -> (r: Vec<Tier>)
    ensures
        r@ == spec_initial_tiers(
            policy,
            default_lane,
            total_capacity,
            new_tier_price,
            initial_tier_delay,
            tier1_capacity,
            rb_tier0_capacity,
        ),
{
    let price = if new_tier_price < 1 {
        1
    } else {
        new_tier_price
    };
    let mut tiers: Vec<Tier> = Vec::new();
    match policy {
        TierBlockSelectionPolicy::NaiveRbEbTwoTier => {
            let c1 = if tier1_capacity < total_capacity {
                tier1_capacity
            } else {
                total_capacity
            };
            let d1 = if initial_tier_delay < 1 {
                1
            } else {
                initial_tier_delay
            };
            tiers.push(
                Tier {
                    id: TierId(0),
                    lane: TierLane::Ranking,
                    capacity: total_capacity - c1,
                    version_created_slot: 0,
                    delay: initial_tier_delay,
                    price,
                    used_capacity: 0,
                    tx_count: 0,
                },
            );
            tiers.push(
                Tier {
                    id: TierId(1),
                    lane: TierLane::Endorser,
                    capacity: c1,
                    version_created_slot: 0,
                    delay: d1,
                    price,
                    used_capacity: 0,
                    tx_count: 0,
                },
            );
        },
        TierBlockSelectionPolicy::RbTier0Reserved => {
            let c0 = if rb_tier0_capacity < total_capacity {
                rb_tier0_capacity
            } else {
                total_capacity
            };
            tiers.push(
                Tier {
                    id: TierId(0),
                    lane: TierLane::Ranking,
                    capacity: c0,
                    version_created_slot: 0,
                    delay: initial_tier_delay,
                    price,
                    used_capacity: 0,
                    tx_count: 0,
                },
            );
            tiers.push(
                Tier {
                    id: TierId(1),
                    lane: TierLane::Endorser,
                    capacity: total_capacity,
                    version_created_slot: 0,
                    delay: initial_tier_delay,
                    price,
                    used_capacity: 0,
                    tx_count: 0,
                },
            );
        },
        TierBlockSelectionPolicy::Shared => {
            tiers.push(
                Tier {
                    id: TierId(0),
                    lane: default_lane,
                    capacity: total_capacity,
                    version_created_slot: 0,
                    delay: initial_tier_delay,
                    price,
                    used_capacity: 0,
                    tx_count: 0,
                },
            );
        },
        _ => {
            let first_id: u64 = match default_lane {
                TierLane::Ranking => 0,
                TierLane::Endorser => 1,
            };
            tiers.push(
                Tier {
                    id: TierId(first_id),
                    lane: default_lane,
                    capacity: total_capacity,
                    version_created_slot: 0,
                    delay: initial_tier_delay,
                    price,
                    used_capacity: 0,
                    tx_count: 0,
                },
            );
        },
    }
    assert(tiers@ =~= spec_initial_tiers(
        policy,
        default_lane,
        total_capacity,
        new_tier_price,
        initial_tier_delay,
        tier1_capacity,
        rb_tier0_capacity,
    ));
    tiers
}

/// The initial capacities of a pool add up to its total capacity, except
/// under `RbTier0Reserved`, where the RB reservation and the EB lane each
/// measure against the whole block.
pub proof fn lemma_initial_capacities_partition_total(
    policy: TierBlockSelectionPolicy,
    default_lane: TierLane,
    total_capacity: u64,
    new_tier_price: u64,
    initial_tier_delay: u64,
    tier1_capacity: u64,
    rb_tier0_capacity: u64,
)
    requires
        policy != TierBlockSelectionPolicy::RbTier0Reserved,
    ensures
        ({
            let t = spec_initial_tiers(
                policy,
                default_lane,
                total_capacity,
                new_tier_price,
                initial_tier_delay,
                tier1_capacity,
                rb_tier0_capacity,
            );
            &&& t.len() >= 1
            &&& (if t.len() == 2 {
                t[0].capacity + t[1].capacity
            } else {
                t[0].capacity as int
            }) == total_capacity
        }),
{
}

/// A signal of last-tier fill rate against the add and remove thresholds.
#[derive(Debug, Clone, Copy, PartialEq, Eq, Structural)]
pub struct FillSignal {
    /// The last tier's fill rate is below the remove threshold.
    pub below_remove_threshold: bool,
    /// The last tier's fill rate is above the add threshold.
    pub above_add_threshold: bool,
}

/// What a tier-update cadence does to the tier list.
#[derive(Debug, Clone, Copy, PartialEq, Eq, Structural)]
pub enum TierSizeStep {
    /// Too few tiers to act on: nothing changes, not even capacities.
    Skip,
    /// Drop the slowest tier, then rebalance capacities.
    Remove,
    /// Add a slower tier whose incremental delay uses the ratio of
    /// `boundary_index`, then rebalance capacities.
    Add { boundary_index: usize },
    /// Only rebalance capacities.
    Rebalance,
}

/// The tier-update decision. `reserved` is the RB-reserved layout, whose
/// tier 0 is the fixed RB lane and whose EB lane keeps at least one tier.
/// With a fill signal the thresholds are on the last tier's fill rate;
/// without one, on its price.
pub open spec fn spec_tier_size_step(
    count: usize,
    reserved: bool,
    max_tiers: usize,
    last_price: u64,
    remove_tier_threshold: u64,
    add_tier_threshold: u64,
    fill_signal: Option<FillSignal>,
) -> TierSizeStep {
    let floor: int = if reserved {
        1
    } else {
        0
    };
    if count <= floor {
        TierSizeStep::Skip
    } else {
        let removable = count > floor + 1 && match fill_signal {
            Some(s) => s.below_remove_threshold,
            None => last_price < remove_tier_threshold,
        };
        let addable = count < max_tiers && match fill_signal {
            Some(s) => s.above_add_threshold,
            None => last_price > add_tier_threshold,
        };
        if removable {
            TierSizeStep::Remove
        } else if addable {
            TierSizeStep::Add { boundary_index: (count - 1 - floor) as usize }
        } else {
            TierSizeStep::Rebalance
        }
    }
}

/// The tier-update decision; see `spec_tier_size_step`.
pub fn tier_size_step(
    count: usize,
    reserved: bool,
    max_tiers: usize,
    last_price: u64,
    remove_tier_threshold: u64,
    add_tier_threshold: u64,
    fill_signal: Option<FillSignal>,
) -> (r: TierSizeStep)
    ensures
        r == spec_tier_size_step(
            count,
            reserved,
            max_tiers,
            last_price,
            remove_tier_threshold,
            add_tier_threshold,
            fill_signal,
        ),
{
    let floor: usize = if reserved {
        1
    } else {
        0
    };
    if count <= floor {
        return TierSizeStep::Skip;
    }
    let remove_signal = match fill_signal {
        Some(s) => s.below_remove_threshold,
        None => last_price < remove_tier_threshold,
    };
    let add_signal = match fill_signal {
        Some(s) => s.above_add_threshold,
        None => last_price > add_tier_threshold,
    };
    if count > floor + 1 && remove_signal {
        TierSizeStep::Remove
    } else if count < max_tiers && add_signal {
        TierSizeStep::Add { boundary_index: count - 1 - floor }
    } else {
        TierSizeStep::Rebalance
    }
}

/// Appends a slower tier: a fresh id, the lane of the current slowest tier,
/// no capacity yet, created at `slot`, delay `max(delay, 1)` and price
/// `max(new_tier_price, 1)`.
pub fn push_new_tier(tiers: &mut Vec<Tier>, delay: u64, new_tier_price: u64, slot: u64)
    requires
        old(tiers)@.len() > 0,
    ensures
        final(tiers)@ == old(tiers)@.push(
            spec_fresh_tier(
                spec_sat_add_u64(spec_max_tier_id(old(tiers)@), 1),
                old(tiers)@.last().lane,
                0,
                slot,
                spec_max1(delay),
                spec_max1(new_tier_price),
            ),
        ),
{
    let id = next_tier_id(tiers.as_slice());
    let lane = tiers[tiers.len() - 1].lane;
    let d = if delay < 1 {
        1
    } else {
        delay
    };
    let p = if new_tier_price < 1 {
        1
    } else {
        new_tier_price
    };
    tiers.push(
        Tier {
            id,
            lane,
            capacity: 0,
            version_created_slot: slot,
            delay: d,
            price: p,
            used_capacity: 0,
            tx_count: 0,
        },
    );
}

/// The tiers of one lane, in order.
pub open spec fn spec_tiers_of_lane(tiers: Seq<Tier>, lane: TierLane) -> Seq<Tier> {
    tiers.filter(|t: Tier| t.lane == lane)
}

/// The tiers of one lane, in order.
pub fn tiers_of_lane(tiers: &[Tier], lane: TierLane) -> (r: Vec<Tier>)
    ensures
        r@ == spec_tiers_of_lane(tiers@, lane),
{
    let mut out: Vec<Tier> = Vec::new();
    let n = tiers.len();
    for i in 0..n
        invariant
            n == tiers@.len(),
            out@ == tiers@.take(i as int).filter(|t: Tier| t.lane == lane),
    {
        proof {
            let s = tiers@.take(i + 1);
            assert(s.drop_last() == tiers@.take(i as int));
            assert(s.last() == tiers@[i as int]);
            reveal(Seq::filter);
        }
        let same = match (tiers[i].lane, lane) {
            (TierLane::Ranking, TierLane::Ranking) => true,
            (TierLane::Endorser, TierLane::Endorser) => true,
            _ => false,
        };
        if same {
            out.push(tiers[i]);
        }
    }
    assert(tiers@.take(n as int) == tiers@);
    out
}

/// Quote of a tier under a pool's minimum fee.
pub open spec fn spec_quote_of(tier: Tier, min_fee: u64) -> TierQuote {
    TierQuote {
        id: tier.id,
        lane: tier.lane,
        version_created_slot: tier.version_created_slot,
        delay: tier.delay,
        price_per_byte: tier.price,
        base_fee: min_fee,
    }
}

/// Quotes of all tiers, in order, with the pool's minimum fee as base fee.
pub fn snapshot_of_tiers(tiers: &[Tier], min_fee: u64) -> (r: PricingSnapshot)
    ensures
        r.tiers@ == tiers@.map_values(|t: Tier| spec_quote_of(t, min_fee)),
{
    let mut out: Vec<TierQuote> = Vec::new();
    let n = tiers.len();
    for i in 0..n
        invariant
            n == tiers@.len(),
            out@ == tiers@.take(i as int).map_values(|t: Tier| spec_quote_of(t, min_fee)),
    {
        let t = tiers[i];
        out.push(
            TierQuote {
                id: t.id,
                lane: t.lane,
                version_created_slot: t.version_created_slot,
                delay: t.delay,
                price_per_byte: t.price,
                base_fee: min_fee,
            },
        );
        assert(tiers@.take(i + 1).map_values(|t: Tier| spec_quote_of(t, min_fee)) =~= tiers@.take(
            i as int,
        ).map_values(|t: Tier| spec_quote_of(t, min_fee)).push(spec_quote_of(tiers@[i as int], min_fee)));
    }
    assert(tiers@.take(n as int) == tiers@);
    PricingSnapshot { tiers: out }
}

} // verus!
