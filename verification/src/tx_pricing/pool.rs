//! Filling a block from a tiered pool: each transaction goes to the bucket
//! of the tier it is routed to; buckets are taken in tier order, each in
//! submission order, under a per-tier budget and the block's capacity.
//! The per-tier budgets are inputs (the mechanism derives them from its
//! capacity fractions).

use std::sync::Arc;

use vstd::prelude::*;

use crate::arith::{spec_sat_add_u64, spec_sat_mul_u64, sat_mul_u64};
use crate::model::Transaction;
use crate::tx_pricing::inclusion::{
    fill_greedy, index_of_tier, lemma_fill_within_budgets, total_bytes, lane_assignment_for_inclusion,
    lane_assignment_for_legacy_inclusion, resolve_inclusion_tier_index, sort_by_submission,
    spec_fill, spec_index_of_tier, spec_lane_assignment_for_inclusion,
    spec_lane_assignment_for_legacy_inclusion, spec_resolve_inclusion_tier_index,
    spec_sort_by_submission,
};
use crate::tx_pricing::{
    spec_tier_lane_for_block_kind, BlockKind, Tier, TierAssignmentSemantics,
    TierBlockSelectionPolicy, TierLane,
};

verus! {

/// Bucket (tier index) a transaction goes to: under never-stale semantics
/// the tier its assignment resolves to; under legacy semantics its assigned
/// tier, if still live and its posted fee covers the current price.
pub open spec fn spec_bucket_of(
    tx: Transaction,
    tiers: Seq<Tier>,
    semantics: TierAssignmentSemantics,
    has_separate_eb_pool: bool,
    use_eb_preference: bool,
) -> Option<int> {
    match semantics {
        TierAssignmentSemantics::NeverStale => match spec_lane_assignment_for_inclusion(
            tx,
            has_separate_eb_pool,
            use_eb_preference,
        ) {
            None => None,
            Some(a) => spec_resolve_inclusion_tier_index(
                tiers,
                a.tier_id,
                a.delay_slots,
                a.price_per_byte_at_assignment,
            ),
        },
        TierAssignmentSemantics::LegacyRevalidateCurrentTier => match spec_lane_assignment_for_legacy_inclusion(
            tx,
            has_separate_eb_pool,
            use_eb_preference,
        ) {
            None => None,
            Some(a) => match spec_index_of_tier(tiers, a.tier_id) {
                None => None,
                Some(i) => if a.posted_fee < spec_sat_mul_u64(tiers[i].price, tx.bytes) {
                    None
                } else {
                    Some(i)
                },
            },
        },
    }
}

/// The bucket of every transaction.
pub fn bucket_indices(
    txs: &[Arc<Transaction>],
    tiers: &[Tier],
    semantics: TierAssignmentSemantics,
    has_separate_eb_pool: bool,
    use_eb_preference: bool,
) -> (r: Vec<Option<usize>>)
    ensures
        r@.len() == txs@.len(),
        forall|k: int|
            0 <= k < txs@.len() ==> match #[trigger] r@[k] {
                Some(i) => spec_bucket_of(
                    *txs@[k],
                    tiers@,
                    semantics,
                    has_separate_eb_pool,
                    use_eb_preference,
                ) == Some(i as int),
                None => spec_bucket_of(
                    *txs@[k],
                    tiers@,
                    semantics,
                    has_separate_eb_pool,
                    use_eb_preference,
                ) is None,
            },
{
    let mut out: Vec<Option<usize>> = Vec::new();
    let n = txs.len();
    for k in 0..n
        invariant
            n == txs@.len(),
            out@.len() == k,
            forall|q: int|
                0 <= q < k ==> match #[trigger] out@[q] {
                    Some(i) => spec_bucket_of(
                        *txs@[q],
                        tiers@,
                        semantics,
                        has_separate_eb_pool,
                        use_eb_preference,
                    ) == Some(i as int),
                    None => spec_bucket_of(
                        *txs@[q],
                        tiers@,
                        semantics,
                        has_separate_eb_pool,
                        use_eb_preference,
                    ) is None,
                },
    {
        let ghost old_out = out@;
        let tx = &txs[k];
        let index = match semantics {
            TierAssignmentSemantics::NeverStale => {
                match lane_assignment_for_inclusion(tx, has_separate_eb_pool, use_eb_preference) {
                    None => None,
                    Some(a) => resolve_inclusion_tier_index(
                        tiers,
                        a.tier_id,
                        a.delay_slots,
                        a.price_per_byte_at_assignment,
                    ),
                }
            },
            TierAssignmentSemantics::LegacyRevalidateCurrentTier => {
                match lane_assignment_for_legacy_inclusion(
                    tx,
                    has_separate_eb_pool,
                    use_eb_preference,
                ) {
                    None => None,
                    Some(a) => match index_of_tier(tiers, a.tier_id) {
                        None => None,
                        Some(i) => {
                            proof {
                                lemma_index_of_tier_in_range(tiers@, a.tier_id);
                            }
                            let current_required_fee = sat_mul_u64(tiers[i].price, tx.bytes);
                            if a.posted_fee < current_required_fee {
                                None
                            } else {
                                Some(i)
                            }
                        },
                    },
                }
            },
        };
        assert(index matches Some(i) ==> spec_bucket_of(
            *txs@[k as int],
            tiers@,
            semantics,
            has_separate_eb_pool,
            use_eb_preference,
        ) == Some(i as int));
        assert(index is None ==> spec_bucket_of(
            *txs@[k as int],
            tiers@,
            semantics,
            has_separate_eb_pool,
            use_eb_preference,
        ) is None);
        out.push(index);
        proof {
            assert(out@[k as int] == index);
            assert forall|q: int| 0 <= q < k + 1 implies match #[trigger] out@[q] {
                Some(i) => spec_bucket_of(
                    *txs@[q],
                    tiers@,
                    semantics,
                    has_separate_eb_pool,
                    use_eb_preference,
                ) == Some(i as int),
                None => spec_bucket_of(
                    *txs@[q],
                    tiers@,
                    semantics,
                    has_separate_eb_pool,
                    use_eb_preference,
                ) is None,
            } by {
                if q < k {
                    assert(out@[q] == old_out[q]);
                }
            }
        }
    }
    out
}

/// The transactions of bucket `i`, in input order.
pub open spec fn spec_bucket(txs: Seq<Arc<Transaction>>, idx: Seq<Option<usize>>, i: int) -> Seq<
    Arc<Transaction>,
>
    decreases txs.len(),
{
    if txs.len() == 0 || idx.len() != txs.len() {
        Seq::empty()
    } else {
        let p = spec_bucket(txs.drop_last(), idx.drop_last(), i);
        if idx.last() == Some(i as usize) {
            p.push(txs.last())
        } else {
            p
        }
    }
}

fn bucket(txs: &[Arc<Transaction>], idx: &Vec<Option<usize>>, i: usize) -> (r: Vec<Arc<Transaction>>)
    requires
        idx@.len() == txs@.len(),
    ensures
        r@ == spec_bucket(txs@, idx@, i as int),
{
    let mut out: Vec<Arc<Transaction>> = Vec::new();
    let n = txs.len();
    for k in 0..n
        invariant
            n == txs@.len() == idx@.len(),
            out@ == spec_bucket(txs@.take(k as int), idx@.take(k as int), i as int),
    {
        proof {
            assert(txs@.take(k + 1).drop_last() == txs@.take(k as int));
            assert(idx@.take(k + 1).drop_last() == idx@.take(k as int));
            assert(txs@.take(k + 1).last() == txs@[k as int]);
            assert(idx@.take(k + 1).last() == idx@[k as int]);
        }
        let is_in = match idx[k] {
            Some(j) => j == i,
            None => false,
        };
        if is_in {
            out.push(crate::tx_pricing::inclusion::clone_transaction_pub(&txs[k]));
        }
    }
    assert(txs@.take(n as int) == txs@);
    assert(idx@.take(n as int) == idx@);
    out
}

/// Tier `i` may fill a block of `block_kind`: allowed by the policy and,
/// under continuous lane pricing, on the block's lane.
pub open spec fn spec_tier_eligible(
    tiers: Seq<Tier>,
    i: int,
    policy: TierBlockSelectionPolicy,
    block_kind: BlockKind,
) -> bool {
    !(policy.spec_uses_continuous_lane_pricing() && tiers[i].lane != spec_tier_lane_for_block_kind(
        block_kind,
    )) && policy.spec_allows_tier(i as usize, block_kind)
}

pub open spec fn spec_is_rb_tier0(tier: Tier) -> bool {
    tier.lane == TierLane::Ranking && tier.id.0 == 0
}

/// Sorted contents of bucket `i`.
pub open spec fn spec_sorted_bucket(txs: Seq<Arc<Transaction>>, idx: Seq<Option<usize>>, i: int) -> Seq<
    Arc<Transaction>,
> {
    spec_sort_by_submission(spec_bucket(txs, idx, i))
}

pub open spec fn spec_min(a: u64, b: u64) -> u64 {
    if a < b {
        a
    } else {
        b
    }
}

/// Priority ordering over the first `n` tiers: each eligible tier in turn
/// fills from what remains of the block.
pub open spec fn spec_priority_ordering_fill(
    txs: Seq<Arc<Transaction>>,
    idx: Seq<Option<usize>>,
    tiers: Seq<Tier>,
    policy: TierBlockSelectionPolicy,
    block_kind: BlockKind,
    block_capacity: u64,
    n: int,
) -> (Seq<Arc<Transaction>>, u64)
    decreases n,
{
    if n <= 0 {
        (Seq::empty(), block_capacity)
    } else {
        let (inc, rb) = spec_priority_ordering_fill(
            txs,
            idx,
            tiers,
            policy,
            block_kind,
            block_capacity,
            n - 1,
        );
        let i = n - 1;
        if !spec_tier_eligible(tiers, i, policy, block_kind) {
            (inc, rb)
        } else {
            let (t, _, rb2) = spec_fill(spec_sorted_bucket(txs, idx, i), rb, rb);
            (inc + t, rb2)
        }
    }
}

/// Capacity-allocation fill over the first `n` tiers: once the block is
/// full nothing more is taken; each eligible tier (skipping the RB tier 0
/// when `skip_rb_tier0`) fills up to its budget, plus `spill` for
/// ranking-lane tiers, within what remains of the block.
pub open spec fn spec_allocation_fill(
    txs: Seq<Arc<Transaction>>,
    idx: Seq<Option<usize>>,
    tiers: Seq<Tier>,
    base_capacities: Seq<u64>,
    policy: TierBlockSelectionPolicy,
    block_kind: BlockKind,
    start_included: Seq<Arc<Transaction>>,
    start_remaining: u64,
    skip_rb_tier0: bool,
    spill: u64,
    n: int,
) -> (Seq<Arc<Transaction>>, u64)
    decreases n,
{
    if n <= 0 {
        (start_included, start_remaining)
    } else {
        let (inc, rb) = spec_allocation_fill(
            txs,
            idx,
            tiers,
            base_capacities,
            policy,
            block_kind,
            start_included,
            start_remaining,
            skip_rb_tier0,
            spill,
            n - 1,
        );
        let i = n - 1;
        if rb == 0 || (skip_rb_tier0 && spec_is_rb_tier0(tiers[i])) || !spec_tier_eligible(
            tiers,
            i,
            policy,
            block_kind,
        ) {
            (inc, rb)
        } else {
            let budget = if tiers[i].lane == TierLane::Ranking {
                spec_sat_add_u64(base_capacities[i], spill)
            } else {
                base_capacities[i]
            };
            let (t, _, rb2) = spec_fill(spec_sorted_bucket(txs, idx, i), spec_min(budget, rb), rb);
            (inc + t, rb2)
        }
    }
}

/// Index of the first ranking-lane tier with id 0.
pub open spec fn spec_first_rb_tier0(tiers: Seq<Tier>) -> Option<int>
    decreases tiers.len(),
{
    if tiers.len() == 0 {
        None
    } else {
        match spec_first_rb_tier0(tiers.drop_last()) {
            Some(i) => Some(i),
            None => if spec_is_rb_tier0(tiers.last()) {
                Some(tiers.len() - 1)
            } else {
                None
            },
        }
    }
}

proof fn lemma_first_rb_tier0_in_range(tiers: Seq<Tier>)
    ensures
        spec_first_rb_tier0(tiers) matches Some(i) ==> 0 <= i < tiers.len(),
    decreases tiers.len(),
{
    if tiers.len() > 0 {
        lemma_first_rb_tier0_in_range(tiers.drop_last());
    }
}

/// The soft-reserve first phase: the RB tier 0 (if any, and allowed) fills
/// up to `max(its budget, soft_reserve)`; returns what it took, what
/// remains of the block, and the unused reservation that spills over.
pub open spec fn spec_soft_reserve_phase(
    txs: Seq<Arc<Transaction>>,
    idx: Seq<Option<usize>>,
    tiers: Seq<Tier>,
    base_capacities: Seq<u64>,
    policy: TierBlockSelectionPolicy,
    block_kind: BlockKind,
    block_capacity: u64,
    soft_reserve: u64,
) -> (Seq<Arc<Transaction>>, u64, u64) {
    match spec_first_rb_tier0(tiers) {
        None => (Seq::empty(), block_capacity, 0),
        Some(t0) => if !policy.spec_allows_tier(t0 as usize, block_kind) {
            (Seq::empty(), block_capacity, 0)
        } else {
            let budget = spec_min(
                if base_capacities[t0] < soft_reserve {
                    soft_reserve
                } else {
                    base_capacities[t0]
                },
                block_capacity,
            );
            let (t, a, rb) = spec_fill(spec_sorted_bucket(txs, idx, t0), budget, block_capacity);
            let used = budget - a;
            (t, rb, if soft_reserve < used {
                0
            } else {
                (soft_reserve - used) as u64
            })
        },
    }
}

/// The block filled from a tiered pool: strict tier priority when
/// `priority_ordering`; otherwise capacity allocation, preceded by the RB
/// tier-0 soft reservation when `soft_reserve > 0`.
pub open spec fn spec_fill_pool(
    txs: Seq<Arc<Transaction>>,
    idx: Seq<Option<usize>>,
    tiers: Seq<Tier>,
    base_capacities: Seq<u64>,
    policy: TierBlockSelectionPolicy,
    block_kind: BlockKind,
    block_capacity: u64,
    priority_ordering: bool,
    soft_reserve: u64,
) -> Seq<Arc<Transaction>> {
    if tiers.len() == 0 {
        Seq::empty()
    } else if priority_ordering {
        spec_priority_ordering_fill(
            txs,
            idx,
            tiers,
            policy,
            block_kind,
            block_capacity,
            tiers.len() as int,
        ).0
    } else if soft_reserve > 0 {
        let (t, rb, spill) = spec_soft_reserve_phase(
            txs,
            idx,
            tiers,
            base_capacities,
            policy,
            block_kind,
            block_capacity,
            soft_reserve,
        );
        spec_allocation_fill(
            txs,
            idx,
            tiers,
            base_capacities,
            policy,
            block_kind,
            t,
            rb,
            true,
            spill,
            tiers.len() as int,
        ).0
    } else {
        spec_allocation_fill(
            txs,
            idx,
            tiers,
            base_capacities,
            policy,
            block_kind,
            Seq::empty(),
            block_capacity,
            false,
            0,
            tiers.len() as int,
        ).0
    }
}

fn tier_eligible(
    tiers: &[Tier],
    i: usize,
    policy: TierBlockSelectionPolicy,
    block_kind: BlockKind,
) -> (r: bool)
    requires
        i < tiers@.len(),
    ensures
        r == spec_tier_eligible(tiers@, i as int, policy, block_kind),
{
    let lane = crate::tx_pricing::tier_lane_for_block_kind(block_kind);
    let lane_mismatch = match (tiers[i].lane, lane) {
        (TierLane::Ranking, TierLane::Ranking) => false,
        (TierLane::Endorser, TierLane::Endorser) => false,
        _ => true,
    };
    !(policy.uses_continuous_lane_pricing() && lane_mismatch) && policy.allows_tier(i, block_kind)
}

fn is_rb_tier0(tier: &Tier) -> (r: bool)
    ensures
        r == spec_is_rb_tier0(*tier),
{
    match tier.lane {
        TierLane::Ranking => tier.id.0 == 0,
        TierLane::Endorser => false,
    }
}

fn sorted_bucket(txs: &[Arc<Transaction>], idx: &Vec<Option<usize>>, i: usize) -> (r: Vec<
    Arc<Transaction>,
>)
    requires
        idx@.len() == txs@.len(),
    ensures
        r@ == spec_sorted_bucket(txs@, idx@, i as int),
{
    sort_by_submission(bucket(txs, idx, i))
}

/// Fills a block of `block_kind` and `block_capacity` from the pool of
/// `txs` routed to `tiers` (`idx[k]` is the bucket of `txs[k]`, as
/// `bucket_indices` computes it); see `spec_fill_pool`.
/// `base_capacities[i]` is tier `i`'s budget in this block.
pub fn fill_pool(
    txs: &[Arc<Transaction>],
    idx: &Vec<Option<usize>>,
    tiers: &[Tier],
    base_capacities: &[u64],
    policy: TierBlockSelectionPolicy,
    block_kind: BlockKind,
    block_capacity: u64,
    priority_ordering: bool,
    soft_reserve: u64,
) -> (r: Vec<Arc<Transaction>>)
    requires
        base_capacities@.len() == tiers@.len(),
        idx@.len() == txs@.len(),
    ensures
        r@ == spec_fill_pool(
            txs@,
            idx@,
            tiers@,
            base_capacities@,
            policy,
            block_kind,
            block_capacity,
            priority_ordering,
            soft_reserve,
        ),
{
    let n = tiers.len();
    let mut included: Vec<Arc<Transaction>> = Vec::new();
    if n == 0 {
        assert(included@ =~= spec_fill_pool(
            txs@,
            idx@,
            tiers@,
            base_capacities@,
            policy,
            block_kind,
            block_capacity,
            priority_ordering,
            soft_reserve,
        ));
        return included;
    }
    if priority_ordering {
        let mut remaining_block = block_capacity;
        for i in 0..n
            invariant
                n == tiers@.len(),
                idx@.len() == txs@.len(),
                (included@, remaining_block) == spec_priority_ordering_fill(
                    txs@,
                    idx@,
                    tiers@,
                    policy,
                    block_kind,
                    block_capacity,
                    i as int,
                ),
        {
            if tier_eligible(tiers, i, policy, block_kind) {
                let b = sorted_bucket(txs, idx, i);
                let (_, rb) = fill_greedy(b, remaining_block, remaining_block, &mut included);
                remaining_block = rb;
            }
        }
        return included;
    }
    let mut remaining_block = block_capacity;
    let mut spill: u64 = 0;
    let skip_rb_tier0 = soft_reserve > 0;
    if soft_reserve > 0 {
        let mut t0: Option<usize> = None;
        for i in 0..n
            invariant
                n == tiers@.len(),
                match t0 {
                    Some(j) => spec_first_rb_tier0(tiers@.take(i as int)) == Some(j as int),
                    None => spec_first_rb_tier0(tiers@.take(i as int)) is None,
                },
        {
            proof {
                assert(tiers@.take(i + 1).drop_last() == tiers@.take(i as int));
                assert(tiers@.take(i + 1).last() == tiers@[i as int]);
            }
            if t0.is_none() && is_rb_tier0(&tiers[i]) {
                t0 = Some(i);
            }
        }
        assert(tiers@.take(n as int) == tiers@);
        proof {
            lemma_first_rb_tier0_in_range(tiers@);
        }
        if let Some(t) = t0 {
            if policy.allows_tier(t, block_kind) {
                let base = base_capacities[t];
                let widened = if base < soft_reserve {
                    soft_reserve
                } else {
                    base
                };
                let budget = if widened < remaining_block {
                    widened
                } else {
                    remaining_block
                };
                let b = sorted_bucket(txs, idx, t);
                let (a, rb) = fill_greedy(b, budget, remaining_block, &mut included);
                proof {
                    crate::tx_pricing::inclusion::lemma_fill_within_budgets(
                        spec_sorted_bucket(txs@, idx@, t as int),
                        budget,
                        remaining_block,
                    );
                }
                let used = budget - a;
                spill = soft_reserve.saturating_sub(used);
                remaining_block = rb;
            }
        }
    }
    let ghost start_included = included@;
    let ghost start_remaining = remaining_block;
    proof {
        if soft_reserve > 0 {
            assert((start_included, start_remaining, spill) == spec_soft_reserve_phase(
                txs@,
                idx@,
                tiers@,
                base_capacities@,
                policy,
                block_kind,
                block_capacity,
                soft_reserve,
            ));
        } else {
            assert(start_included =~= Seq::<Arc<Transaction>>::empty());
        }
    }
    for i in 0..n
        invariant
            n == tiers@.len() == base_capacities@.len(),
            idx@.len() == txs@.len(),
            skip_rb_tier0 == (soft_reserve > 0),
            (included@, remaining_block) == spec_allocation_fill(
                txs@,
                idx@,
                tiers@,
                base_capacities@,
                policy,
                block_kind,
                start_included,
                start_remaining,
                skip_rb_tier0,
                spill,
                i as int,
            ),
    {
        let skip = remaining_block == 0 || (skip_rb_tier0 && is_rb_tier0(&tiers[i]))
            || !tier_eligible(tiers, i, policy, block_kind);
        if !skip {
            let budget = match tiers[i].lane {
                TierLane::Ranking => base_capacities[i].saturating_add(spill),
                TierLane::Endorser => base_capacities[i],
            };
            let tier_budget = if budget < remaining_block {
                budget
            } else {
                remaining_block
            };
            let b = sorted_bucket(txs, idx, i);
            let (_, rb) = fill_greedy(b, tier_budget, remaining_block, &mut included);
            remaining_block = rb;
        }
    }
    included
}

/// Per-tier usage of a block: for each tier, total bytes and count of the
/// transactions whose inclusion assignment names that tier (the last tier
/// with that id), saturating.
pub open spec fn spec_tier_usage(
    txs: Seq<Arc<Transaction>>,
    tiers: Seq<Tier>,
    has_separate_eb_pool: bool,
    use_eb_preference: bool,
) -> (Seq<u64>, Seq<u64>)
    decreases txs.len(),
{
    if txs.len() == 0 {
        (Seq::new(tiers.len(), |i: int| 0u64), Seq::new(tiers.len(), |i: int| 0u64))
    } else {
        let (used, counts) = spec_tier_usage(
            txs.drop_last(),
            tiers,
            has_separate_eb_pool,
            use_eb_preference,
        );
        let tx = txs.last();
        match spec_lane_assignment_for_inclusion(*tx, has_separate_eb_pool, use_eb_preference) {
            None => (used, counts),
            Some(a) => match spec_index_of_tier(tiers, a.tier_id) {
                None => (used, counts),
                Some(i) => (
                    used.update(i, spec_sat_add_u64(used[i], tx.bytes)),
                    counts.update(i, spec_sat_add_u64(counts[i], 1)),
                ),
            },
        }
    }
}

pub open spec fn spec_deref_tx(tx: Arc<Transaction>) -> Transaction {
    *tx
}

proof fn lemma_index_of_tier_in_range(tiers: Seq<Tier>, id: crate::model::TierId)
    ensures
        spec_index_of_tier(tiers, id) matches Some(i) ==> 0 <= i < tiers.len(),
    decreases tiers.len(),
{
    if tiers.len() > 0 {
        lemma_index_of_tier_in_range(tiers.drop_last(), id);
    }
}

proof fn lemma_tier_usage_len(
    txs: Seq<Arc<Transaction>>,
    tiers: Seq<Tier>,
    has_separate_eb_pool: bool,
    use_eb_preference: bool,
)
    ensures
        spec_tier_usage(txs, tiers, has_separate_eb_pool, use_eb_preference).0.len() == tiers.len(),
        spec_tier_usage(txs, tiers, has_separate_eb_pool, use_eb_preference).1.len() == tiers.len(),
    decreases txs.len(),
{
    if txs.len() > 0 {
        lemma_tier_usage_len(txs.drop_last(), tiers, has_separate_eb_pool, use_eb_preference);
        let tx = txs.last();
        let choice = spec_lane_assignment_for_inclusion(
            spec_deref_tx(tx),
            has_separate_eb_pool,
            use_eb_preference,
        );
        if choice is Some {
            lemma_index_of_tier_in_range(tiers, choice->0.tier_id);
        }
    }
}

/// Bytes used and transactions counted per tier in a block; see
/// `spec_tier_usage`.
pub fn tier_usage(
    txs: &[Arc<Transaction>],
    tiers: &[Tier],
    has_separate_eb_pool: bool,
    use_eb_preference: bool,
) -> (r: (Vec<u64>, Vec<u64>))
    ensures
        (r.0@, r.1@) == spec_tier_usage(txs@, tiers@, has_separate_eb_pool, use_eb_preference),
{
    let n = tiers.len();
    let mut used: Vec<u64> = Vec::new();
    let mut counts: Vec<u64> = Vec::new();
    for i in 0..n
        invariant
            n == tiers@.len(),
            used@ == Seq::new(i as nat, |j: int| 0u64),
            counts@ == Seq::new(i as nat, |j: int| 0u64),
    {
        used.push(0);
        counts.push(0);
        assert(used@ =~= Seq::new((i + 1) as nat, |j: int| 0u64));
        assert(counts@ =~= Seq::new((i + 1) as nat, |j: int| 0u64));
    }
    let m = txs.len();
    assert(txs@.take(0) =~= Seq::<Arc<Transaction>>::empty());
    for k in 0..m
        invariant
            n == tiers@.len(),
            m == txs@.len(),
            (used@, counts@) == spec_tier_usage(
                txs@.take(k as int),
                tiers@,
                has_separate_eb_pool,
                use_eb_preference,
            ),
    {
        proof {
            assert(txs@.take(k + 1).drop_last() == txs@.take(k as int));
            assert(txs@.take(k + 1).last() == txs@[k as int]);
            lemma_tier_usage_len(txs@.take(k as int), tiers@, has_separate_eb_pool, use_eb_preference);
        }
        let tx = &txs[k];
        if let Some(a) = lane_assignment_for_inclusion(tx, has_separate_eb_pool, use_eb_preference) {
            if let Some(i) = index_of_tier(tiers, a.tier_id) {
                proof {
                    lemma_index_of_tier_in_range(tiers@, a.tier_id);
                }
                let u = used[i].saturating_add(tx.bytes);
                let c = counts[i].saturating_add(1);
                used.set(i, u);
                counts.set(i, c);
            }
        }
    }
    assert(txs@.take(m as int) == txs@);
    (used, counts)
}


/// Soft reservation of the RB tier 0 in a block: `rb_soft_reserved` for a
/// ranking block under continuous RB/EB pricing, else nothing.
pub open spec fn spec_soft_reserve_for(
    policy: TierBlockSelectionPolicy,
    block_kind: BlockKind,
    rb_soft_reserved: u64,
) -> u64 {
    if (policy == TierBlockSelectionPolicy::ContinuousRbEb || policy
        == TierBlockSelectionPolicy::ContinuousRbEbFallback) && block_kind
        == BlockKind::RankingBlock {
        rb_soft_reserved
    } else {
        0
    }
}

/// Selects the transactions of a block from a tiered pool: routes each
/// transaction to its bucket (`bucket_indices`) and fills the block from
/// the buckets (`fill_pool`), with the RB soft reservation where the
/// policy has one. `base_capacities[i]` is tier `i`'s budget in this block
/// and `rb_soft_reserved` the soft reservation of the RB tier 0.
pub fn select_transactions_from_pool(
    txs: &[Arc<Transaction>],
    tiers: &[Tier],
    base_capacities: &[u64],
    semantics: TierAssignmentSemantics,
    policy: TierBlockSelectionPolicy,
    block_kind: BlockKind,
    block_capacity: u64,
    priority_ordering: bool,
    rb_soft_reserved: u64,
    has_separate_eb_pool: bool,
    use_eb_preference: bool,
) -> (r: Vec<Arc<Transaction>>)
    requires
        base_capacities@.len() == tiers@.len(),
    ensures
        exists|idx: Seq<Option<usize>>|
            {
                &&& idx.len() == txs@.len()
                &&& forall|k: int|
                    0 <= k < txs@.len() ==> match #[trigger] idx[k] {
                        Some(i) => spec_bucket_of(
                            *txs@[k],
                            tiers@,
                            semantics,
                            has_separate_eb_pool,
                            use_eb_preference,
                        ) == Some(i as int),
                        None => spec_bucket_of(
                            *txs@[k],
                            tiers@,
                            semantics,
                            has_separate_eb_pool,
                            use_eb_preference,
                        ) is None,
                    }
                &&& r@ == spec_fill_pool(
                    txs@,
                    idx,
                    tiers@,
                    base_capacities@,
                    policy,
                    block_kind,
                    block_capacity,
                    priority_ordering,
                    spec_soft_reserve_for(policy, block_kind, rb_soft_reserved),
                )
            },
        total_bytes(r@) <= block_capacity,
{
    let idx = bucket_indices(txs, tiers, semantics, has_separate_eb_pool, use_eb_preference);
    let continuous = match policy {
        TierBlockSelectionPolicy::ContinuousRbEb => true,
        TierBlockSelectionPolicy::ContinuousRbEbFallback => true,
        _ => false,
    };
    let ranking = match block_kind {
        BlockKind::RankingBlock => true,
        BlockKind::EndorserBlock => false,
    };
    let soft_reserve = if continuous && ranking {
        rb_soft_reserved
    } else {
        0
    };
    let r = fill_pool(
        txs,
        &idx,
        tiers,
        base_capacities,
        policy,
        block_kind,
        block_capacity,
        priority_ordering,
        soft_reserve,
    );
    proof {
        lemma_fill_pool_within_block(
            txs@,
            idx@,
            tiers@,
            base_capacities@,
            policy,
            block_kind,
            block_capacity,
            priority_ordering,
            soft_reserve,
        );
        assert(soft_reserve == spec_soft_reserve_for(policy, block_kind, rb_soft_reserved));
        let w = idx@;
        assert(w.len() == txs@.len());
        assert(r@ == spec_fill_pool(
            txs@,
            w,
            tiers@,
            base_capacities@,
            policy,
            block_kind,
            block_capacity,
            priority_ordering,
            spec_soft_reserve_for(policy, block_kind, rb_soft_reserved),
        ));
    }
    r
}

/// The bytes of two sequences of transactions put together add up.
pub proof fn lemma_total_bytes_concat(a: Seq<Arc<Transaction>>, b: Seq<Arc<Transaction>>)
    ensures
        total_bytes(a + b) == total_bytes(a) + total_bytes(b),
    decreases b.len(),
{
    if b.len() > 0 {
        lemma_total_bytes_concat(a, b.drop_last());
        assert((a + b).drop_last() == a + b.drop_last());
        assert((a + b).last() == b.last());
    } else {
        assert(a + b == a);
    }
}

proof fn lemma_priority_fill_accounts(
    txs: Seq<Arc<Transaction>>,
    idx: Seq<Option<usize>>,
    tiers: Seq<Tier>,
    policy: TierBlockSelectionPolicy,
    block_kind: BlockKind,
    block_capacity: u64,
    n: int,
)
    ensures
        ({
            let (inc, rb) = spec_priority_ordering_fill(
                txs,
                idx,
                tiers,
                policy,
                block_kind,
                block_capacity,
                n,
            );
            total_bytes(inc) + rb == block_capacity
        }),
    decreases n,
{
    if n > 0 {
        lemma_priority_fill_accounts(txs, idx, tiers, policy, block_kind, block_capacity, n - 1);
        let (inc, rb) = spec_priority_ordering_fill(
            txs,
            idx,
            tiers,
            policy,
            block_kind,
            block_capacity,
            n - 1,
        );
        let sb = spec_sorted_bucket(txs, idx, n - 1);
        lemma_fill_within_budgets(sb, rb, rb);
        lemma_total_bytes_concat(inc, spec_fill(sb, rb, rb).0);
    }
}

proof fn lemma_allocation_fill_accounts(
    txs: Seq<Arc<Transaction>>,
    idx: Seq<Option<usize>>,
    tiers: Seq<Tier>,
    base_capacities: Seq<u64>,
    policy: TierBlockSelectionPolicy,
    block_kind: BlockKind,
    start_included: Seq<Arc<Transaction>>,
    start_remaining: u64,
    skip_rb_tier0: bool,
    spill: u64,
    n: int,
)
    ensures
        ({
            let (inc, rb) = spec_allocation_fill(
                txs,
                idx,
                tiers,
                base_capacities,
                policy,
                block_kind,
                start_included,
                start_remaining,
                skip_rb_tier0,
                spill,
                n,
            );
            total_bytes(inc) + rb == total_bytes(start_included) + start_remaining
        }),
    decreases n,
{
    if n > 0 {
        lemma_allocation_fill_accounts(
            txs,
            idx,
            tiers,
            base_capacities,
            policy,
            block_kind,
            start_included,
            start_remaining,
            skip_rb_tier0,
            spill,
            n - 1,
        );
        let (inc, rb) = spec_allocation_fill(
            txs,
            idx,
            tiers,
            base_capacities,
            policy,
            block_kind,
            start_included,
            start_remaining,
            skip_rb_tier0,
            spill,
            n - 1,
        );
        let i = n - 1;
        let budget = if tiers[i].lane == TierLane::Ranking {
            spec_sat_add_u64(base_capacities[i], spill)
        } else {
            base_capacities[i]
        };
        let sb = spec_sorted_bucket(txs, idx, i);
        lemma_fill_within_budgets(sb, spec_min(budget, rb), rb);
        lemma_total_bytes_concat(inc, spec_fill(sb, spec_min(budget, rb), rb).0);
    }
}

/// A block filled from a tiered pool never holds more bytes than the
/// block's capacity, whatever the ordering, budgets or soft reservation.
pub proof fn lemma_fill_pool_within_block(
    txs: Seq<Arc<Transaction>>,
    idx: Seq<Option<usize>>,
    tiers: Seq<Tier>,
    base_capacities: Seq<u64>,
    policy: TierBlockSelectionPolicy,
    block_kind: BlockKind,
    block_capacity: u64,
    priority_ordering: bool,
    soft_reserve: u64,
)
    ensures
        total_bytes(
            spec_fill_pool(
                txs,
                idx,
                tiers,
                base_capacities,
                policy,
                block_kind,
                block_capacity,
                priority_ordering,
                soft_reserve,
            ),
        ) <= block_capacity,
{
    let n = tiers.len() as int;
    if tiers.len() == 0 {
    } else if priority_ordering {
        lemma_priority_fill_accounts(txs, idx, tiers, policy, block_kind, block_capacity, n);
    } else if soft_reserve > 0 {
        let (t, rb, spill) = spec_soft_reserve_phase(
            txs,
            idx,
            tiers,
            base_capacities,
            policy,
            block_kind,
            block_capacity,
            soft_reserve,
        );
        match spec_first_rb_tier0(tiers) {
            None => {},
            Some(t0) => {
                if policy.spec_allows_tier(t0 as usize, block_kind) {
                    let base = base_capacities[t0];
                    let budget = spec_min(
                        if base < soft_reserve {
                            soft_reserve
                        } else {
                            base
                        },
                        block_capacity,
                    );
                    lemma_fill_within_budgets(
                        spec_sorted_bucket(txs, idx, t0),
                        budget,
                        block_capacity,
                    );
                }
            },
        }
        assert(total_bytes(t) + rb == block_capacity);
        lemma_allocation_fill_accounts(
            txs,
            idx,
            tiers,
            base_capacities,
            policy,
            block_kind,
            t,
            rb,
            true,
            spill,
            n,
        );
    } else {
        lemma_allocation_fill_accounts(
            txs,
            idx,
            tiers,
            base_capacities,
            policy,
            block_kind,
            Seq::empty(),
            block_capacity,
            false,
            0,
            n,
        );
    }
}


/// Never-stale assignments survive repricing and tier churn: while the
/// pool has any tier, a transaction with an inclusion assignment always has
/// a bucket. Under legacy revalidation, a transaction whose assigned tier
/// is gone has none.
pub proof fn lemma_assignment_routing_semantics(
    tx: Transaction,
    tiers: Seq<Tier>,
    has_separate_eb_pool: bool,
    use_eb_preference: bool,
)
    ensures
        tiers.len() > 0 && spec_lane_assignment_for_inclusion(
            tx,
            has_separate_eb_pool,
            use_eb_preference,
        ) is Some ==> spec_bucket_of(
            tx,
            tiers,
            TierAssignmentSemantics::NeverStale,
            has_separate_eb_pool,
            use_eb_preference,
        ) is Some,
        (spec_lane_assignment_for_legacy_inclusion(tx, has_separate_eb_pool, use_eb_preference) matches Some(a)
            && spec_index_of_tier(tiers, a.tier_id) is None) ==> spec_bucket_of(
            tx,
            tiers,
            TierAssignmentSemantics::LegacyRevalidateCurrentTier,
            has_separate_eb_pool,
            use_eb_preference,
        ) is None,
{
}

} // verus!
