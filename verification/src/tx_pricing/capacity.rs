//! Which capacity a tier has in a given block. Several of the formulas
//! scale or split a capacity by a fraction; this module decides which
//! formula applies, and the caller evaluates the fractional ones.

use vstd::prelude::*;

use crate::model::TierId;
use crate::tx_pricing::{
    spec_tier_lane_for_block_kind, BlockKind, Tier, TierBlockSelectionPolicy, TierLane,
};

verus! {

/// How a tier's capacity in a block is obtained.
#[derive(Debug, Clone, Copy, PartialEq, Eq, Structural)]
pub enum CapacityRule {
    /// Exactly this many bytes.
    Fixed(u64),
    /// This capacity scaled by `block_capacity / total_capacity` (0 when the
    /// pool's total capacity is 0), rounded to the nearest byte.
    Scaled(u64),
    /// The RB reservation of the block: its reserved fraction of
    /// `block_capacity`, rounded, at most `block_capacity`.
    RbReserved,
    /// `tier_capacity / eb_capacity_sum` of the block, rounded to the nearest
    /// byte when `rounded`.
    EbShare { tier_capacity: u64, eb_capacity_sum: u64, rounded: bool },
}

/// Sum of the capacities of the tiers after the first.
pub open spec fn spec_eb_capacity_sum(tiers: Seq<Tier>) -> int
    decreases tiers.len(),
{
    if tiers.len() <= 1 {
        0
    } else {
        spec_eb_capacity_sum(tiers.drop_last()) + tiers.last().capacity
    }
}

proof fn lemma_eb_capacity_sum_monotone(tiers: Seq<Tier>, k: int)
    requires
        0 <= k <= tiers.len(),
    ensures
        spec_eb_capacity_sum(tiers.take(k)) <= spec_eb_capacity_sum(tiers),
    decreases tiers.len() - k,
{
    if k < tiers.len() {
        lemma_eb_capacity_sum_monotone(tiers, k + 1);
        let t = tiers.take(k + 1);
        assert(t.drop_last() == tiers.take(k));
        if k >= 1 {
            assert(spec_eb_capacity_sum(t) == spec_eb_capacity_sum(tiers.take(k)) + t.last().capacity);
        } else {
            assert(spec_eb_capacity_sum(tiers.take(k)) == 0);
        }
    } else {
        assert(tiers.take(k) == tiers);
    }
}

/// Sum of the capacities of the tiers after the first; the sum must fit
/// in a `u64`.
pub fn eb_capacity_sum(tiers: &[Tier]) -> (r: u64)
    requires
        spec_eb_capacity_sum(tiers@) <= u64::MAX,
    ensures
        r == spec_eb_capacity_sum(tiers@),
{
    let n = tiers.len();
    let mut sum: u64 = 0;
    if n <= 1 {
        return 0;
    }
    assert(spec_eb_capacity_sum(tiers@.take(1)) == 0);
    for i in 1..n
        invariant
            n == tiers@.len(),
            spec_eb_capacity_sum(tiers@) <= u64::MAX,
            sum == spec_eb_capacity_sum(tiers@.take(i as int)),
    {
        proof {
            let t = tiers@.take(i + 1);
            assert(t.drop_last() == tiers@.take(i as int));
            assert(t.last() == tiers@[i as int]);
            lemma_eb_capacity_sum_monotone(tiers@, i + 1);
        }
        sum = sum + tiers[i].capacity;
    }
    assert(tiers@.take(n as int) == tiers@);
    sum
}

/// Rule for tier `index`'s budget when filling a block without priority
/// ordering. `separate_eb_pool` says whether the market runs a separate EB
/// pool, in which case tier capacities are already per block.
pub open spec fn spec_fill_budget_rule(
    tiers: Seq<Tier>,
    index: int,
    policy: TierBlockSelectionPolicy,
    block_kind: BlockKind,
    block_capacity: u64,
    separate_eb_pool: bool,
) -> CapacityRule {
    match policy {
        TierBlockSelectionPolicy::NaiveRbEbTwoTier => CapacityRule::Fixed(block_capacity),
        TierBlockSelectionPolicy::RbTier0Reserved => match block_kind {
            BlockKind::RankingBlock => CapacityRule::RbReserved,
            BlockKind::EndorserBlock => if spec_eb_capacity_sum(tiers) == 0 {
                CapacityRule::Fixed(0)
            } else {
                CapacityRule::EbShare {
                    tier_capacity: tiers[index].capacity,
                    eb_capacity_sum: spec_eb_capacity_sum(tiers) as u64,
                    rounded: true,
                }
            },
        },
        _ => if separate_eb_pool {
            CapacityRule::Fixed(tiers[index].capacity)
        } else {
            CapacityRule::Scaled(tiers[index].capacity)
        },
    }
}

/// Rule for tier `index`'s capacity when measuring its fill rate after a
/// block without priority ordering: a tier that the block could not fill
/// has no capacity.
pub open spec fn spec_fill_rate_capacity_rule(
    tiers: Seq<Tier>,
    index: int,
    policy: TierBlockSelectionPolicy,
    block_kind: BlockKind,
    block_capacity: u64,
    separate_eb_pool: bool,
) -> CapacityRule {
    match policy {
        TierBlockSelectionPolicy::NaiveRbEbTwoTier => if policy.spec_allows_tier(
            index as usize,
            block_kind,
        ) {
            CapacityRule::Fixed(block_capacity)
        } else {
            CapacityRule::Fixed(0)
        },
        TierBlockSelectionPolicy::RbTier0Reserved => match block_kind {
            BlockKind::RankingBlock => CapacityRule::RbReserved,
            BlockKind::EndorserBlock => if spec_eb_capacity_sum(tiers) == 0 {
                CapacityRule::Fixed(0)
            } else {
                CapacityRule::EbShare {
                    tier_capacity: tiers[index].capacity,
                    eb_capacity_sum: spec_eb_capacity_sum(tiers) as u64,
                    rounded: false,
                }
            },
        },
        TierBlockSelectionPolicy::Shared => if separate_eb_pool {
            CapacityRule::Fixed(tiers[index].capacity)
        } else {
            CapacityRule::Scaled(tiers[index].capacity)
        },
        _ => if tiers[index].lane != spec_tier_lane_for_block_kind(block_kind) {
            CapacityRule::Fixed(0)
        } else if separate_eb_pool {
            CapacityRule::Fixed(tiers[index].capacity)
        } else {
            CapacityRule::Scaled(tiers[index].capacity)
        },
    }
}

fn fill_rule(
    tiers: &[Tier],
    index: usize,
    policy: TierBlockSelectionPolicy,
    block_kind: BlockKind,
    block_capacity: u64,
    separate_eb_pool: bool,
    eb_sum: u64,
    for_fill_rate: bool,
) -> (r: CapacityRule)
    requires
        index < tiers@.len(),
        eb_sum == spec_eb_capacity_sum(tiers@),
    ensures
        !for_fill_rate ==> r == spec_fill_budget_rule(
            tiers@,
            index as int,
            policy,
            block_kind,
            block_capacity,
            separate_eb_pool,
        ),
        for_fill_rate ==> r == spec_fill_rate_capacity_rule(
            tiers@,
            index as int,
            policy,
            block_kind,
            block_capacity,
            separate_eb_pool,
        ),
{
    let tier = tiers[index];
    let scaled_or_fixed = if separate_eb_pool {
        CapacityRule::Fixed(tier.capacity)
    } else {
        CapacityRule::Scaled(tier.capacity)
    };
    match policy {
        TierBlockSelectionPolicy::NaiveRbEbTwoTier => {
            if !for_fill_rate || policy.allows_tier(index, block_kind) {
                CapacityRule::Fixed(block_capacity)
            } else {
                CapacityRule::Fixed(0)
            }
        },
        TierBlockSelectionPolicy::RbTier0Reserved => match block_kind {
            BlockKind::RankingBlock => CapacityRule::RbReserved,
            BlockKind::EndorserBlock => if eb_sum == 0 {
                CapacityRule::Fixed(0)
            } else {
                CapacityRule::EbShare {
                    tier_capacity: tier.capacity,
                    eb_capacity_sum: eb_sum,
                    rounded: !for_fill_rate,
                }
            },
        },
        TierBlockSelectionPolicy::Shared => scaled_or_fixed,
        _ => {
            let on_lane = match (tier.lane, crate::tx_pricing::tier_lane_for_block_kind(block_kind)) {
                (TierLane::Ranking, TierLane::Ranking) => true,
                (TierLane::Endorser, TierLane::Endorser) => true,
                _ => false,
            };
            if for_fill_rate && !on_lane {
                CapacityRule::Fixed(0)
            } else {
                scaled_or_fixed
            }
        },
    }
}

/// Budget rules of every tier for a block filled without priority
/// ordering; see `spec_fill_budget_rule`.
pub fn fill_budget_rules(
    tiers: &[Tier],
    policy: TierBlockSelectionPolicy,
    block_kind: BlockKind,
    block_capacity: u64,
    separate_eb_pool: bool,
) -> (r: Vec<CapacityRule>)
    requires
        spec_eb_capacity_sum(tiers@) <= u64::MAX,
    ensures
        r@.len() == tiers@.len(),
        forall|i: int|
            0 <= i < tiers@.len() ==> #[trigger] r@[i] == spec_fill_budget_rule(
                tiers@,
                i,
                policy,
                block_kind,
                block_capacity,
                separate_eb_pool,
            ),
{
    rules(tiers, policy, block_kind, block_capacity, separate_eb_pool, false)
}

/// Capacity rules of every tier for the fill rates of a block without
/// priority ordering; see `spec_fill_rate_capacity_rule`.
pub fn fill_rate_capacity_rules(
    tiers: &[Tier],
    policy: TierBlockSelectionPolicy,
    block_kind: BlockKind,
    block_capacity: u64,
    separate_eb_pool: bool,
) -> (r: Vec<CapacityRule>)
    requires
        spec_eb_capacity_sum(tiers@) <= u64::MAX,
    ensures
        r@.len() == tiers@.len(),
        forall|i: int|
            0 <= i < tiers@.len() ==> #[trigger] r@[i] == spec_fill_rate_capacity_rule(
                tiers@,
                i,
                policy,
                block_kind,
                block_capacity,
                separate_eb_pool,
            ),
{
    rules(tiers, policy, block_kind, block_capacity, separate_eb_pool, true)
}

fn rules(
    tiers: &[Tier],
    policy: TierBlockSelectionPolicy,
    block_kind: BlockKind,
    block_capacity: u64,
    separate_eb_pool: bool,
    for_fill_rate: bool,
) -> (r: Vec<CapacityRule>)
    requires
        spec_eb_capacity_sum(tiers@) <= u64::MAX,
    ensures
        r@.len() == tiers@.len(),
        forall|i: int|
            0 <= i < tiers@.len() ==> {
                &&& !for_fill_rate ==> #[trigger] r@[i] == spec_fill_budget_rule(
                    tiers@,
                    i,
                    policy,
                    block_kind,
                    block_capacity,
                    separate_eb_pool,
                )
                &&& for_fill_rate ==> r@[i] == spec_fill_rate_capacity_rule(
                    tiers@,
                    i,
                    policy,
                    block_kind,
                    block_capacity,
                    separate_eb_pool,
                )
            },
{
    let eb_sum = eb_capacity_sum(tiers);
    let mut out: Vec<CapacityRule> = Vec::new();
    let n = tiers.len();
    for i in 0..n
        invariant
            n == tiers@.len(),
            eb_sum == spec_eb_capacity_sum(tiers@),
            out@.len() == i,
            forall|j: int|
                0 <= j < i ==> {
                    &&& !for_fill_rate ==> #[trigger] out@[j] == spec_fill_budget_rule(
                        tiers@,
                        j,
                        policy,
                        block_kind,
                        block_capacity,
                        separate_eb_pool,
                    )
                    &&& for_fill_rate ==> out@[j] == spec_fill_rate_capacity_rule(
                        tiers@,
                        j,
                        policy,
                        block_kind,
                        block_capacity,
                        separate_eb_pool,
                    )
                },
    {
        let rule = fill_rule(
            tiers,
            i,
            policy,
            block_kind,
            block_capacity,
            separate_eb_pool,
            eb_sum,
            for_fill_rate,
        );
        out.push(rule);
    }
    out
}

/// Index of the first tier with id `tier_id`.
pub open spec fn spec_first_index_of_tier(tiers: Seq<Tier>, tier_id: TierId) -> Option<int>
    decreases tiers.len(),
{
    if tiers.len() == 0 {
        None
    } else {
        match spec_first_index_of_tier(tiers.drop_last(), tier_id) {
            Some(i) => Some(i),
            None => if tiers.last().id == tier_id {
                Some(tiers.len() - 1)
            } else {
                None
            },
        }
    }
}

/// The capacity a tier may hold in pending bytes for blocks of a kind: with
/// priority ordering the whole pool; otherwise its fill budget (a tier the
/// naive layout keeps off the block has none), and for the RB tier 0 under
/// continuous pricing on ranking blocks, at least the soft reservation
/// (the boolean). `None` when no tier has the id.
pub open spec fn spec_effective_capacity_rule(
    tiers: Seq<Tier>,
    tier_id: TierId,
    policy: TierBlockSelectionPolicy,
    block_kind: BlockKind,
    block_capacity: u64,
    total_capacity: u64,
    priority_ordering: bool,
    separate_eb_pool: bool,
) -> Option<(CapacityRule, bool)> {
    match spec_first_index_of_tier(tiers, tier_id) {
        None => None,
        Some(index) => if priority_ordering {
            Some(
                (
                    if separate_eb_pool {
                        CapacityRule::Fixed(total_capacity)
                    } else {
                        CapacityRule::Scaled(total_capacity)
                    },
                    false,
                ),
            )
        } else {
            let rule = match policy {
                TierBlockSelectionPolicy::NaiveRbEbTwoTier => if policy.spec_allows_tier(
                    index as usize,
                    block_kind,
                ) {
                    CapacityRule::Fixed(block_capacity)
                } else {
                    CapacityRule::Fixed(0)
                },
                _ => spec_fill_budget_rule(
                    tiers,
                    index,
                    policy,
                    block_kind,
                    block_capacity,
                    separate_eb_pool,
                ),
            };
            let soft = (policy == TierBlockSelectionPolicy::ContinuousRbEb || policy
                == TierBlockSelectionPolicy::ContinuousRbEbFallback) && block_kind
                == BlockKind::RankingBlock && tiers[index].lane == TierLane::Ranking
                && tiers[index].id == TierId(0);
            Some((rule, soft))
        },
    }
}

/// The capacity rule of tier `tier_id` for overflow checks; see
/// `spec_effective_capacity_rule`.
pub fn effective_capacity_rule(
    tiers: &[Tier],
    tier_id: TierId,
    policy: TierBlockSelectionPolicy,
    block_kind: BlockKind,
    block_capacity: u64,
    total_capacity: u64,
    priority_ordering: bool,
    separate_eb_pool: bool,
) -> (r: Option<(CapacityRule, bool)>)
    requires
        !priority_ordering && spec_first_index_of_tier(tiers@, tier_id) is Some
            ==> spec_eb_capacity_sum(tiers@) <= u64::MAX,
    ensures
        r == spec_effective_capacity_rule(
            tiers@,
            tier_id,
            policy,
            block_kind,
            block_capacity,
            total_capacity,
            priority_ordering,
            separate_eb_pool,
        ),
{
    let n = tiers.len();
    let mut found: Option<usize> = None;
    for i in 0..n
        invariant
            n == tiers@.len(),
            match found {
                Some(j) => spec_first_index_of_tier(tiers@.take(i as int), tier_id) == Some(
                    j as int,
                ) && j < i,
                None => spec_first_index_of_tier(tiers@.take(i as int), tier_id) is None,
            },
    {
        proof {
            assert(tiers@.take(i + 1).drop_last() == tiers@.take(i as int));
            assert(tiers@.take(i + 1).last() == tiers@[i as int]);
        }
        if found.is_none() && tiers[i].id.0 == tier_id.0 {
            found = Some(i);
        }
    }
    assert(tiers@.take(n as int) == tiers@);
    let index = match found {
        None => {
            return None;
        },
        Some(j) => j,
    };
    if priority_ordering {
        let rule = if separate_eb_pool {
            CapacityRule::Fixed(total_capacity)
        } else {
            CapacityRule::Scaled(total_capacity)
        };
        return Some((rule, false));
    }
    let eb_sum = eb_capacity_sum(tiers);
    let rule = match policy {
        TierBlockSelectionPolicy::NaiveRbEbTwoTier => fill_rule(
            tiers,
            index,
            policy,
            block_kind,
            block_capacity,
            separate_eb_pool,
            eb_sum,
            true,
        ),
        _ => fill_rule(
            tiers,
            index,
            policy,
            block_kind,
            block_capacity,
            separate_eb_pool,
            eb_sum,
            false,
        ),
    };
    let tier = tiers[index];
    let continuous = match policy {
        TierBlockSelectionPolicy::ContinuousRbEb => true,
        TierBlockSelectionPolicy::ContinuousRbEbFallback => true,
        _ => false,
    };
    let ranking_block = match block_kind {
        BlockKind::RankingBlock => true,
        BlockKind::EndorserBlock => false,
    };
    let ranking_lane = match tier.lane {
        TierLane::Ranking => true,
        TierLane::Endorser => false,
    };
    let soft = continuous && ranking_block && ranking_lane && tier.id.0 == 0;
    Some((rule, soft))
}

} // verus!
