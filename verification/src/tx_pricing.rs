//! Tiered pricing: several fee tiers with different inclusion delays, each
//! repriced EIP-1559 style, and the single-tier mechanisms it is compared
//! with. This module holds the integer parts of the mechanism: tier quotes
//! and snapshots, tier selection, fee and assignment histories, inclusion
//! routing and block filling, the priority-lane market, the tier list and
//! its cadences, capacity rules and configuration rules.

pub mod cadence;
pub mod capacity;
pub mod config_rules;
pub mod history;
pub mod inclusion;
pub mod pool;
pub mod priority_lane;
pub mod selection;
pub mod tiers;

use std::sync::Arc;

use vstd::prelude::*;

use crate::arith::{spec_sat_add_u64, spec_sat_mul_u64, sat_mul_u64};
use crate::model::{TierId, Transaction};

verus! {

/// Kind of block a tier feeds: ranking blocks (RB) or endorser blocks (EB).
#[derive(Debug, Copy, Clone, PartialEq, Eq, Structural)]
pub enum BlockKind {
    RankingBlock,
    EndorserBlock,
}

/// How tiers map to block kinds.
#[derive(Debug, Copy, Clone, PartialEq, Eq, Structural)]
pub enum TierBlockSelectionPolicy {
    Shared,
    NaiveRbEbTwoTier,
    RbTier0Reserved,
    ContinuousRbEb,
    ContinuousRbEbFallback,
}

impl TierBlockSelectionPolicy {
    pub open spec fn spec_allows_tier(self, tier_index: usize, block_kind: BlockKind) -> bool {
        match self {
            TierBlockSelectionPolicy::NaiveRbEbTwoTier => match block_kind {
                BlockKind::RankingBlock => tier_index == 0,
                BlockKind::EndorserBlock => tier_index == 1,
            },
            TierBlockSelectionPolicy::RbTier0Reserved => match block_kind {
                BlockKind::RankingBlock => tier_index == 0,
                BlockKind::EndorserBlock => tier_index > 0,
            },
            _ => true,
        }
    }

    /// Whether the tier at `tier_index` may fill blocks of `block_kind`.
    pub fn allows_tier(self, tier_index: usize, block_kind: BlockKind) -> (r: bool)
        ensures
            r == self.spec_allows_tier(tier_index, block_kind),
    {
        match self {
            TierBlockSelectionPolicy::Shared => true,
            TierBlockSelectionPolicy::NaiveRbEbTwoTier => match block_kind {
                BlockKind::RankingBlock => tier_index == 0,
                BlockKind::EndorserBlock => tier_index == 1,
            },
            TierBlockSelectionPolicy::RbTier0Reserved => match block_kind {
                BlockKind::RankingBlock => tier_index == 0,
                BlockKind::EndorserBlock => tier_index > 0,
            },
            TierBlockSelectionPolicy::ContinuousRbEb
            | TierBlockSelectionPolicy::ContinuousRbEbFallback => true,
        }
    }

    pub open spec fn spec_is_lane_partitioned(self) -> bool {
        self is NaiveRbEbTwoTier || self is RbTier0Reserved || self is ContinuousRbEb
    }

    /// Whether each tier belongs to one block kind.
    pub fn is_lane_partitioned(self) -> (r: bool)
        ensures
            r == self.spec_is_lane_partitioned(),
    {
        match self {
            TierBlockSelectionPolicy::NaiveRbEbTwoTier
            | TierBlockSelectionPolicy::RbTier0Reserved
            | TierBlockSelectionPolicy::ContinuousRbEb => true,
            _ => false,
        }
    }

    pub open spec fn spec_uses_continuous_lane_pricing(self) -> bool {
        self is ContinuousRbEb || self is ContinuousRbEbFallback
    }

    /// Whether this policy prices each lane with its own tier states.
    pub fn uses_continuous_lane_pricing(self) -> (r: bool)
        ensures
            r == self.spec_uses_continuous_lane_pricing(),
    {
        match self {
            TierBlockSelectionPolicy::ContinuousRbEb
            | TierBlockSelectionPolicy::ContinuousRbEbFallback => true,
            _ => false,
        }
    }
}

/// Lane a tier belongs to.
#[derive(Debug, Copy, Clone, PartialEq, Eq, Structural)]
pub enum TierLane {
    Ranking,
    Endorser,
}

pub open spec fn spec_tier_lane_for_block_kind(block_kind: BlockKind) -> TierLane {
    match block_kind {
        BlockKind::RankingBlock => TierLane::Ranking,
        BlockKind::EndorserBlock => TierLane::Endorser,
    }
}

/// The tier lane that feeds blocks of `block_kind`.
pub fn tier_lane_for_block_kind(block_kind: BlockKind) -> (r: TierLane)
    ensures
        r == spec_tier_lane_for_block_kind(block_kind),
{
    match block_kind {
        BlockKind::RankingBlock => TierLane::Ranking,
        BlockKind::EndorserBlock => TierLane::Endorser,
    }
}

pub open spec fn spec_block_kind_for_tier_lane(lane: TierLane) -> BlockKind {
    match lane {
        TierLane::Ranking => BlockKind::RankingBlock,
        TierLane::Endorser => BlockKind::EndorserBlock,
    }
}

/// Validity of accepted assignments at inclusion time.
#[derive(Debug, Copy, Clone, PartialEq, Eq, Structural)]
pub enum TierAssignmentSemantics {
    /// Accepted assignments remain includable across repricing and tier churn.
    NeverStale,
    /// Inclusion revalidates the assigned tier against the current tier set.
    LegacyRevalidateCurrentTier,
}

#[derive(Debug, Copy, Clone, PartialEq, Eq, Structural)]
pub enum OverflowRetryBackoffMode {
    Exponential,
}

#[derive(Debug, Copy, Clone, PartialEq, Eq, Structural)]
pub enum OverflowRetrySource {
    LocalActorSubmissions,
}

#[derive(Debug, Copy, Clone, PartialEq, Eq, Structural)]
pub enum OverflowRetryCurveMetric {
    RetainedValueRatio,
}

/// How tier delays are spaced when tiers are added.
#[derive(Debug, Copy, Clone, PartialEq, Eq, Structural)]
pub enum TierDelaySpacing {
    Incremental,
    GeometricFixedMax,
}

/// How aggregated overflow demand affects repricing.
#[derive(Debug, Copy, Clone, PartialEq, Eq, Structural)]
pub enum OverflowAggregatePricingMode {
    /// Overflow bytes count as fill rate before repricing.
    IncludeAsFillRate,
    /// Overflow adds a bounded linear increment after repricing.
    LinearAdditive,
}

/// Default priority-lane delay.
pub fn default_priority_lane_priority_delay() -> (r: u64)
    ensures
        r == 1,
{
    1
}

/// Default normal-lane delay.
pub fn default_priority_lane_normal_delay() -> (r: u64)
    ensures
        r == 2,
{
    2
}

/// By default, submissions beyond a tier's pending capacity are rejected.
pub fn default_reject_on_pending_tier_overflow() -> (r: bool)
    ensures
        r,
{
    true
}

/// Default delay of the first tier.
pub fn default_initial_tier_delay() -> (r: u64)
    ensures
        r == 1,
{
    1
}

/// Default delay of the slowest tier under geometric spacing.
pub fn default_max_tier_delay() -> (r: u64)
    ensures
        r == 200,
{
    200
}

/// Default linear overflow repricing slope.
pub fn default_overflow_linear_price_per_fill() -> (r: u64)
    ensures
        r == 100,
{
    100
}

/// A tier as offered to submitters: price per byte, base fee and delay.
#[derive(Debug, Clone, Copy, PartialEq, Eq, Structural)]
pub struct TierQuote {
    pub id: TierId,
    pub lane: TierLane,
    /// Slot when this tier version became active for new submissions.
    pub version_created_slot: u64,
    pub delay: u64,
    pub price_per_byte: u64,
    pub base_fee: u64,
}

impl TierQuote {
    pub open spec fn spec_required_fee(self, size_bytes: u64) -> u64 {
        spec_sat_add_u64(self.base_fee, spec_sat_mul_u64(self.price_per_byte, size_bytes))
    }

    /// `base_fee + price_per_byte * size_bytes`, saturating.
    pub fn required_fee(&self, size_bytes: u64) -> (r: u64)
        ensures
            r == self.spec_required_fee(size_bytes),
    {
        self.base_fee.saturating_add(sat_mul_u64(self.price_per_byte, size_bytes))
    }
}

/// The fee a tier requires is its base fee plus its per-byte price for
/// every byte, `base_fee + price_per_byte * size_bytes`, or `u64::MAX` when
/// that does not fit; it is the fee a quote of the same tier version is
/// checked against on admission.
pub proof fn lemma_required_fee_is_base_plus_bytes(t: TierQuote, size_bytes: u64)
    ensures
        t.base_fee + t.price_per_byte * size_bytes <= u64::MAX ==> t.spec_required_fee(size_bytes)
            == t.base_fee + t.price_per_byte * size_bytes,
        t.base_fee + t.price_per_byte * size_bytes > u64::MAX ==> t.spec_required_fee(size_bytes)
            == u64::MAX,
        t.spec_required_fee(size_bytes) == crate::tx_pricing::history::spec_quoted_fee(
            t.base_fee,
            t.price_per_byte,
            size_bytes,
        ),
{
    assert(t.price_per_byte * size_bytes >= 0) by (nonlinear_arith);
}

/// Tier quotes offered at one moment.
#[derive(Debug, Clone)]
pub struct PricingSnapshot {
    pub tiers: Vec<TierQuote>,
}

/// `i` is the first index of `tiers` whose price is minimal.
pub open spec fn is_first_cheapest(tiers: Seq<TierQuote>, i: int) -> bool {
    &&& 0 <= i < tiers.len()
    &&& forall|j: int| 0 <= j < tiers.len() ==> tiers[i].price_per_byte <= #[trigger] tiers[j].price_per_byte
    &&& forall|j: int| 0 <= j < i ==> tiers[i].price_per_byte < #[trigger] tiers[j].price_per_byte
}

/// `i` is the first index of `tiers` whose delay is minimal.
pub open spec fn is_first_fastest(tiers: Seq<TierQuote>, i: int) -> bool {
    &&& 0 <= i < tiers.len()
    &&& forall|j: int| 0 <= j < tiers.len() ==> tiers[i].delay <= #[trigger] tiers[j].delay
    &&& forall|j: int| 0 <= j < i ==> tiers[i].delay < #[trigger] tiers[j].delay
}

/// `i` is the first index, among tiers with delay at most `max_delay`,
/// whose price is minimal among them.
pub open spec fn is_first_cheapest_within(tiers: Seq<TierQuote>, max_delay: u64, i: int) -> bool {
    &&& 0 <= i < tiers.len()
    &&& tiers[i].delay <= max_delay
    &&& forall|j: int|
        0 <= j < tiers.len() && #[trigger] tiers[j].delay <= max_delay ==> tiers[i].price_per_byte
            <= tiers[j].price_per_byte
    &&& forall|j: int|
        0 <= j < i && #[trigger] tiers[j].delay <= max_delay ==> tiers[i].price_per_byte
            < tiers[j].price_per_byte
}

impl PricingSnapshot {
    /// The first tier with the lowest price; `None` when there is none.
    pub fn cheapest_tier(&self) -> (r: Option<&TierQuote>)
        ensures
            r is None <==> self.tiers@.len() == 0,
            r matches Some(t) ==> exists|i: int| is_first_cheapest(self.tiers@, i) && *t == self.tiers@[i],
    {
        let n = self.tiers.len();
        if n == 0 {
            return None;
        }
        let mut best: usize = 0;
        for i in 1..n
            invariant
                n == self.tiers@.len(),
                is_first_cheapest(self.tiers@.take(i as int), best as int),
        {
            if self.tiers[i].price_per_byte < self.tiers[best].price_per_byte {
                best = i;
            }
        }
        assert(self.tiers@.take(n as int) == self.tiers@);
        Some(&self.tiers[best])
    }

    /// The first tier with the lowest delay; `None` when there is none.
    pub fn fastest_tier(&self) -> (r: Option<&TierQuote>)
        ensures
            r is None <==> self.tiers@.len() == 0,
            r matches Some(t) ==> exists|i: int| is_first_fastest(self.tiers@, i) && *t == self.tiers@[i],
    {
        let n = self.tiers.len();
        if n == 0 {
            return None;
        }
        let mut best: usize = 0;
        for i in 1..n
            invariant
                n == self.tiers@.len(),
                is_first_fastest(self.tiers@.take(i as int), best as int),
        {
            if self.tiers[i].delay < self.tiers[best].delay {
                best = i;
            }
        }
        assert(self.tiers@.take(n as int) == self.tiers@);
        Some(&self.tiers[best])
    }

    /// The first cheapest tier among those with delay at most `max_delay`;
    /// `None` when no tier is that fast.
    pub fn cheapest_tier_with_delay_at_most(&self, max_delay: u64) -> (r: Option<&TierQuote>)
        ensures
            r is None <==> forall|j: int|
                0 <= j < self.tiers@.len() ==> #[trigger] self.tiers@[j].delay > max_delay,
            r matches Some(t) ==> exists|i: int|
                is_first_cheapest_within(self.tiers@, max_delay, i) && *t == self.tiers@[i],
    {
        let n = self.tiers.len();
        let mut best: Option<usize> = None;
        for i in 0..n
            invariant
                n == self.tiers@.len(),
                match best {
                    Some(b) => is_first_cheapest_within(self.tiers@.take(i as int), max_delay, b as int),
                    None => forall|j: int|
                        0 <= j < i ==> #[trigger] self.tiers@[j].delay > max_delay,
                },
        {
            if self.tiers[i].delay <= max_delay {
                match best {
                    None => {
                        best = Some(i);
                    },
                    Some(b) => {
                        if self.tiers[i].price_per_byte < self.tiers[b].price_per_byte {
                            best = Some(i);
                        }
                    },
                }
            }
        }
        assert(self.tiers@.take(n as int) == self.tiers@);
        match best {
            Some(b) => Some(&self.tiers[b]),
            None => None,
        }
    }
}

/// A live tier: capacity, delay, price and per-block usage counters.
#[derive(Debug, Clone, Copy, PartialEq, Eq, Structural)]
pub struct Tier {
    pub id: TierId,
    pub lane: TierLane,
    pub capacity: u64,
    /// Slot when this tier version became active for submissions.
    pub version_created_slot: u64,
    pub delay: u64,
    pub price: u64,
    pub used_capacity: u64,
    pub tx_count: u64,
}

/// Which cadences fired during a block update.
#[derive(Debug, Clone, Copy, PartialEq, Eq, Structural)]
pub struct TierCadenceUpdate {
    pub delay_update_triggered: bool,
    pub tier_update_triggered: bool,
}

impl Default for TierCadenceUpdate {
    fn default() -> (r: TierCadenceUpdate)
        ensures
            !r.delay_update_triggered,
            !r.tier_update_triggered,
    {
        TierCadenceUpdate { delay_update_triggered: false, tier_update_triggered: false }
    }
}

/// Flat single-tier pricing.
#[derive(Debug, Clone, Copy, PartialEq, Eq, Structural)]
pub struct BaselinePricing {
    fee_per_byte: u64,
    base_fee: u64,
}

impl BaselinePricing {
    pub closed spec fn spec_fee_per_byte(self) -> u64 {
        self.fee_per_byte
    }

    pub closed spec fn spec_base_fee(self) -> u64 {
        self.base_fee
    }

    /// Flat pricing at `fee_per_byte` per byte plus `base_fee`.
    pub fn new(fee_per_byte: u64, base_fee: u64) -> (r: BaselinePricing)
        ensures
            r.spec_fee_per_byte() == fee_per_byte,
            r.spec_base_fee() == base_fee,
    {
        BaselinePricing { fee_per_byte, base_fee }
    }

    /// One tier 0 on the ranking lane, delay 1, at the fixed fee.
    pub fn snapshot(&self) -> (r: PricingSnapshot)
        ensures
            r.tiers@ == seq![
                TierQuote {
                    id: TierId(0),
                    lane: TierLane::Ranking,
                    version_created_slot: 0,
                    delay: 1,
                    price_per_byte: self.spec_fee_per_byte(),
                    base_fee: self.spec_base_fee(),
                },
            ],
    {
        let tiers = vec![TierQuote {
            id: TierId::new(0),
            lane: TierLane::Ranking,
            version_created_slot: 0,
            delay: 1,
            price_per_byte: self.fee_per_byte,
            base_fee: self.base_fee,
        }];
        let r = PricingSnapshot { tiers };
        assert(r.tiers@ =~= seq![
            TierQuote {
                id: TierId(0),
                lane: TierLane::Ranking,
                version_created_slot: 0,
                delay: 1,
                price_per_byte: self.spec_fee_per_byte(),
                base_fee: self.spec_base_fee(),
            },
        ]);
        r
    }

    /// The flat fee does not react to blocks.
    pub fn update_after_block(&mut self, txs: &[Arc<Transaction>], block_capacity: u64)
        ensures
            *final(self) == *old(self),
    {
    }
}

/// Exponential retry delay for a band: 0 when the band allows no retry,
/// otherwise `base_delay_slots * 2^min(attempt_index, 20)` saturating,
/// capped at `max_delay_slots`.
pub open spec fn spec_retry_delay_slots(
    max_attempts: u32,
    base_delay_slots: u64,
    max_delay_slots: u64,
    attempt_index: u32,
) -> u64 {
    if max_attempts == 0 {
        0
    } else {
        let shift: nat = if attempt_index > 20 {
            20
        } else {
            attempt_index as nat
        };
        let delay = spec_sat_mul_u64(base_delay_slots, vstd::arithmetic::power2::pow2(shift) as u64);
        if delay < max_delay_slots {
            delay
        } else {
            max_delay_slots
        }
    }
}

/// The exponential back-off of the overflow-retry policy, on the band's
/// and policy's integer parameters.
pub fn retry_delay_slots(
    max_attempts: u32,
    base_delay_slots: u64,
    max_delay_slots: u64,
    attempt_index: u32,
) -> (r: u64)
    ensures
        r == spec_retry_delay_slots(max_attempts, base_delay_slots, max_delay_slots, attempt_index),
{
    if max_attempts == 0 {
        return 0;
    }
    let shift: u32 = if attempt_index > 20 {
        20
    } else {
        attempt_index
    };
    let mut factor: u64 = 1;
    let mut i: u32 = 0;
    proof {
        vstd::arithmetic::power2::lemma2_to64();
    }
    while i < shift
        invariant
            i <= shift <= 20,
            factor == vstd::arithmetic::power2::pow2(i as nat),
        decreases shift - i,
    {
        proof {
            vstd::arithmetic::power2::lemma_pow2_unfold((i + 1) as nat);
            vstd::arithmetic::power2::lemma2_to64();
            if i + 1 < 20 {
                vstd::arithmetic::power2::lemma_pow2_strictly_increases((i + 1) as nat, 20);
            }
        }
        factor = factor * 2;
        i = i + 1;
    }
    let delay = sat_mul_u64(base_delay_slots, factor);
    if delay < max_delay_slots {
        delay
    } else {
        max_delay_slots
    }
}

pub open spec fn spec_is_cadence_due(
    slot: u64,
    last_update_slot: Option<u64>,
    period_slots: Option<u64>,
    block_counter: u64,
    frequency: Option<u64>,
) -> bool {
    match period_slots {
        Some(period) => match last_update_slot {
            Some(previous) => (if slot < previous {
                0
            } else {
                slot - previous
            }) >= period,
            None => slot >= period,
        },
        None => match frequency {
            Some(f) => block_counter % f == 0,
            None => false,
        },
    }
}

/// Whether a cadence fires: by slots since the last update when a slot
/// period is set, else every `frequency` blocks, else never.
pub fn is_cadence_due(
    slot: u64,
    last_update_slot: Option<u64>,
    period_slots: Option<u64>,
    block_counter: u64,
    frequency: Option<u64>,
) -> (r: bool)
    requires
        period_slots is None ==> frequency != Some(0u64),
    ensures
        r == spec_is_cadence_due(slot, last_update_slot, period_slots, block_counter, frequency),
{
    match period_slots {
        Some(period) => match last_update_slot {
            Some(previous) => slot.saturating_sub(previous) >= period,
            None => slot >= period,
        },
        None => match frequency {
            Some(f) => block_counter % f == 0,
            None => false,
        },
    }
}


/// The retry delay never exceeds the policy's cap, and never shrinks from
/// one attempt to the next.
pub proof fn lemma_retry_delay_capped_and_monotone(
    max_attempts: u32,
    base_delay_slots: u64,
    max_delay_slots: u64,
    attempt_index: u32,
)
    requires
        attempt_index < u32::MAX,
    ensures
        spec_retry_delay_slots(max_attempts, base_delay_slots, max_delay_slots, attempt_index)
            <= max_delay_slots,
        spec_retry_delay_slots(max_attempts, base_delay_slots, max_delay_slots, attempt_index)
            <= spec_retry_delay_slots(
            max_attempts,
            base_delay_slots,
            max_delay_slots,
            (attempt_index + 1) as u32,
        ),
{
    if max_attempts != 0 {
        let s1: nat = if attempt_index > 20 {
            20
        } else {
            attempt_index as nat
        };
        let s2: nat = if attempt_index + 1 > 20 {
            20
        } else {
            (attempt_index + 1) as nat
        };
        vstd::arithmetic::power2::lemma2_to64();
        if s1 < s2 {
            vstd::arithmetic::power2::lemma_pow2_strictly_increases(s1, s2);
        }
        vstd::arithmetic::power2::lemma_pow2_pos(s1);
        if s2 <= 20 {
            vstd::arithmetic::power2::lemma_pow2_strictly_increases(s2, 21);
        }
        assert(vstd::arithmetic::power2::pow2(21) == 0x200000) by {
            vstd::arithmetic::power2::lemma2_to64();
        }
        let f1 = vstd::arithmetic::power2::pow2(s1);
        let f2 = vstd::arithmetic::power2::pow2(s2);
        assert(f1 <= f2);
        assert(base_delay_slots * f1 <= base_delay_slots * f2) by (nonlinear_arith)
            requires
                f1 <= f2,
        ;
    }
}

} // verus!
