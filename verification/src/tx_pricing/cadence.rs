//! Per-block bookkeeping of a tiered pool: which tiers a block reprices,
//! and when the delay and tier-count cadences fire.

use vstd::prelude::*;

use crate::tx_pricing::{
    is_cadence_due, spec_is_cadence_due, spec_tier_lane_for_block_kind, BlockKind, Tier,
    TierBlockSelectionPolicy, TierCadenceUpdate,
};

verus! {

/// The two cadences of a pool: each by slot period when set, else every
/// `frequency` blocks.
#[derive(Debug, Clone, Copy, PartialEq, Eq, Structural)]
pub struct CadenceConfig {
    pub delay_update_frequency: Option<u64>,
    pub delay_update_period_slots: Option<u64>,
    pub tier_update_frequency: Option<u64>,
    pub tier_update_period_slots: Option<u64>,
}

impl CadenceConfig {
    /// A cadence without a slot period has a nonzero block frequency.
    pub open spec fn well_formed(self) -> bool {
        &&& (self.delay_update_period_slots is None ==> self.delay_update_frequency != Some(0u64))
        &&& (self.tier_update_period_slots is None ==> self.tier_update_frequency != Some(0u64))
    }

    /// The tier cadence as a number of slots or blocks: the slot period when
    /// set, else the block frequency, else 1.
    pub open spec fn spec_tier_update_cadence_slots(self) -> u64 {
        match self.tier_update_period_slots {
            Some(p) => p,
            None => match self.tier_update_frequency {
                Some(f) => f,
                None => 1,
            },
        }
    }

    /// The tier cadence as a number of slots or blocks; see
    /// `spec_tier_update_cadence_slots`.
    pub fn tier_update_cadence_slots(&self) -> (r: u64)
        ensures
            r == self.spec_tier_update_cadence_slots(),
    {
        match self.tier_update_period_slots {
            Some(p) => p,
            None => match self.tier_update_frequency {
                Some(f) => f,
                None => 1,
            },
        }
    }
}

/// A per-lane setting: the RB lane's override when it has one, else the
/// shared value.
pub open spec fn spec_value_for_lane(lane: crate::tx_pricing::TierLane, rb_override: Option<u64>, value: u64) -> u64 {
    match lane {
        crate::tx_pricing::TierLane::Ranking => match rb_override {
            Some(v) => v,
            None => value,
        },
        crate::tx_pricing::TierLane::Endorser => value,
    }
}

/// A per-lane setting; see `spec_value_for_lane`.
pub fn value_for_lane(lane: crate::tx_pricing::TierLane, rb_override: Option<u64>, value: u64) -> (r: u64)
    ensures
        r == spec_value_for_lane(lane, rb_override, value),
{
    match lane {
        crate::tx_pricing::TierLane::Ranking => match rb_override {
            Some(v) => v,
            None => value,
        },
        crate::tx_pricing::TierLane::Endorser => value,
    }
}

/// Block counters and last firing slots of a pool's cadences.
#[derive(Debug, Clone, Copy, PartialEq, Eq, Structural)]
pub struct CadenceCounters {
    pub block_count: u64,
    pub eb_block_count: u64,
    pub last_delay_update_slot: Option<u64>,
    pub last_tier_update_slot: Option<u64>,
}

pub open spec fn spec_inc(x: u64) -> u64 {
    if x == u64::MAX {
        x
    } else {
        (x + 1) as u64
    }
}

/// Whether a cadence fires under `policy`: shared and continuous pools
/// count every block; the RB-reserved layout fires only on endorser blocks
/// and counts those; the naive two-tier layout never fires.
pub open spec fn spec_cadence_fires(
    policy: TierBlockSelectionPolicy,
    block_kind: BlockKind,
    slot: u64,
    last_update_slot: Option<u64>,
    period_slots: Option<u64>,
    block_count: u64,
    eb_block_count: u64,
    frequency: Option<u64>,
) -> bool {
    match policy {
        TierBlockSelectionPolicy::NaiveRbEbTwoTier => false,
        TierBlockSelectionPolicy::RbTier0Reserved => block_kind == BlockKind::EndorserBlock
            && spec_is_cadence_due(slot, last_update_slot, period_slots, eb_block_count, frequency),
        _ => spec_is_cadence_due(slot, last_update_slot, period_slots, block_count, frequency),
    }
}

/// Whether a block tests the cadences at all: never under the naive
/// two-tier layout, only on endorser blocks under the RB-reserved layout.
pub open spec fn spec_cadence_evaluated(policy: TierBlockSelectionPolicy, block_kind: BlockKind) -> bool {
    match policy {
        TierBlockSelectionPolicy::NaiveRbEbTwoTier => false,
        TierBlockSelectionPolicy::RbTier0Reserved => block_kind == BlockKind::EndorserBlock,
        _ => true,
    }
}

impl CadenceCounters {
    /// No block seen yet and no cadence fired.
    pub fn new() -> (r: CadenceCounters)
        ensures
            r == (CadenceCounters {
                block_count: 0,
                eb_block_count: 0,
                last_delay_update_slot: None,
                last_tier_update_slot: None,
            }),
    {
        CadenceCounters {
            block_count: 0,
            eb_block_count: 0,
            last_delay_update_slot: None,
            last_tier_update_slot: None,
        }
    }

    /// The counters after a block of `block_kind` at `slot`, and which
    /// cadences fired: the block counts go up (saturating; the EB count on
    /// endorser blocks only), then each cadence is tested on the new counts
    /// and, when it fires, remembers `slot`.
    pub open spec fn spec_advance(
        self,
        policy: TierBlockSelectionPolicy,
        block_kind: BlockKind,
        slot: u64,
        cadence: CadenceConfig,
    ) -> (CadenceCounters, TierCadenceUpdate) {
        let block_count = spec_inc(self.block_count);
        let eb_block_count = if block_kind == BlockKind::EndorserBlock {
            spec_inc(self.eb_block_count)
        } else {
            self.eb_block_count
        };
        let delays = spec_cadence_fires(
            policy,
            block_kind,
            slot,
            self.last_delay_update_slot,
            cadence.delay_update_period_slots,
            block_count,
            eb_block_count,
            cadence.delay_update_frequency,
        );
        let tiers = spec_cadence_fires(
            policy,
            block_kind,
            slot,
            self.last_tier_update_slot,
            cadence.tier_update_period_slots,
            block_count,
            eb_block_count,
            cadence.tier_update_frequency,
        );
        (
            CadenceCounters {
                block_count,
                eb_block_count,
                last_delay_update_slot: if delays {
                    Some(slot)
                } else {
                    self.last_delay_update_slot
                },
                last_tier_update_slot: if tiers {
                    Some(slot)
                } else {
                    self.last_tier_update_slot
                },
            },
            TierCadenceUpdate { delay_update_triggered: delays, tier_update_triggered: tiers },
        )
    }

    /// Records a block and reports which cadences fired; see `spec_advance`.
    pub fn advance(
        &mut self,
        policy: TierBlockSelectionPolicy,
        block_kind: BlockKind,
        slot: u64,
        cadence: CadenceConfig,
    ) -> (r: TierCadenceUpdate)
        requires
            spec_cadence_evaluated(policy, block_kind) ==> cadence.well_formed(),
        ensures
            (*final(self), r) == old(self).spec_advance(policy, block_kind, slot, cadence),
    {
        self.block_count = self.block_count.saturating_add(1);
        let endorser = match block_kind {
            BlockKind::EndorserBlock => true,
            BlockKind::RankingBlock => false,
        };
        if endorser {
            self.eb_block_count = self.eb_block_count.saturating_add(1);
        }
        let delays = match policy {
            TierBlockSelectionPolicy::NaiveRbEbTwoTier => false,
            TierBlockSelectionPolicy::RbTier0Reserved => endorser && is_cadence_due(
                slot,
                self.last_delay_update_slot,
                cadence.delay_update_period_slots,
                self.eb_block_count,
                cadence.delay_update_frequency,
            ),
            _ => is_cadence_due(
                slot,
                self.last_delay_update_slot,
                cadence.delay_update_period_slots,
                self.block_count,
                cadence.delay_update_frequency,
            ),
        };
        if delays {
            self.last_delay_update_slot = Some(slot);
        }
        let tiers = match policy {
            TierBlockSelectionPolicy::NaiveRbEbTwoTier => false,
            TierBlockSelectionPolicy::RbTier0Reserved => endorser && is_cadence_due(
                slot,
                self.last_tier_update_slot,
                cadence.tier_update_period_slots,
                self.eb_block_count,
                cadence.tier_update_frequency,
            ),
            _ => is_cadence_due(
                slot,
                self.last_tier_update_slot,
                cadence.tier_update_period_slots,
                self.block_count,
                cadence.tier_update_frequency,
            ),
        };
        if tiers {
            self.last_tier_update_slot = Some(slot);
        }
        TierCadenceUpdate { delay_update_triggered: delays, tier_update_triggered: tiers }
    }
}

/// A slot-period cadence fires at most once per period: after it fires at
/// `slot`, no block at a slot less than a period later fires it again.
pub proof fn lemma_slot_cadence_spacing(
    counters: CadenceCounters,
    policy: TierBlockSelectionPolicy,
    first: BlockKind,
    second: BlockKind,
    slot: u64,
    later_slot: u64,
    cadence: CadenceConfig,
)
    requires
        cadence.delay_update_period_slots matches Some(p) && slot <= later_slot < slot + p,
        counters.spec_advance(policy, first, slot, cadence).1.delay_update_triggered,
    ensures
        !counters.spec_advance(policy, first, slot, cadence).0.spec_advance(
            policy,
            second,
            later_slot,
            cadence,
        ).1.delay_update_triggered,
{
}

/// A block-frequency cadence of the shared layout fires exactly on every
/// `frequency`-th block.
pub proof fn lemma_block_cadence_fires_on_multiples(
    counters: CadenceCounters,
    block_kind: BlockKind,
    slot: u64,
    cadence: CadenceConfig,
)
    requires
        cadence.delay_update_period_slots is None,
        cadence.delay_update_frequency matches Some(f) && f > 0,
        counters.block_count < u64::MAX,
    ensures
        counters.spec_advance(TierBlockSelectionPolicy::Shared, block_kind, slot, cadence).1.delay_update_triggered
            <==> (counters.block_count + 1) % (cadence.delay_update_frequency->0 as int) == 0,
{
}

/// Whether a block of `block_kind` reprices tier `index`: under continuous
/// lane pricing only tiers of the block's lane, under a lane-partitioned
/// policy only tiers the block may fill.
pub open spec fn spec_block_reprices_tier(
    policy: TierBlockSelectionPolicy,
    tier: Tier,
    index: usize,
    block_kind: BlockKind,
) -> bool {
    !(policy.spec_uses_continuous_lane_pricing() && tier.lane != spec_tier_lane_for_block_kind(
        block_kind,
    )) && !(policy.spec_is_lane_partitioned() && !policy.spec_allows_tier(index, block_kind))
}

/// Tier `i` after a block: repriced tiers (among the first
/// `updated_prices.len()`) take their updated price, and a tier whose price
/// changed starts a new version at `slot`; every tier's usage is reset.
pub open spec fn spec_repriced_tier(
    tier: Tier,
    i: int,
    updated_prices: Seq<u64>,
    policy: TierBlockSelectionPolicy,
    block_kind: BlockKind,
    slot: u64,
) -> Tier {
    let t = if i < updated_prices.len() && spec_block_reprices_tier(
        policy,
        tier,
        i as usize,
        block_kind,
    ) {
        Tier {
            price: updated_prices[i],
            version_created_slot: if updated_prices[i] != tier.price {
                slot
            } else {
                tier.version_created_slot
            },
            ..tier
        }
    } else {
        tier
    };
    Tier { used_capacity: 0, tx_count: 0, ..t }
}

/// Whether a block of `block_kind` reprices tier `index`; see
/// `spec_block_reprices_tier`.
pub fn block_reprices_tier(
    policy: TierBlockSelectionPolicy,
    tier: &Tier,
    index: usize,
    block_kind: BlockKind,
) -> (r: bool)
    ensures
        r == spec_block_reprices_tier(policy, *tier, index, block_kind),
{
    let lane = crate::tx_pricing::tier_lane_for_block_kind(block_kind);
    let lane_mismatch = match (tier.lane, lane) {
        (crate::tx_pricing::TierLane::Ranking, crate::tx_pricing::TierLane::Ranking) => false,
        (crate::tx_pricing::TierLane::Endorser, crate::tx_pricing::TierLane::Endorser) => false,
        _ => true,
    };
    !(policy.uses_continuous_lane_pricing() && lane_mismatch) && !(policy.is_lane_partitioned()
        && !policy.allows_tier(index, block_kind))
}

/// Applies a block's repricing to the tiers and resets their usage; see
/// `spec_repriced_tier`. `updated_prices[i]` is tier `i`'s price as the
/// controller computed it from the block's fill rate.
pub fn apply_block_repricing(
    tiers: &mut Vec<Tier>,
    updated_prices: &[u64],
    policy: TierBlockSelectionPolicy,
    block_kind: BlockKind,
    slot: u64,
)
    ensures
        final(tiers)@.len() == old(tiers)@.len(),
        forall|i: int|
            0 <= i < old(tiers)@.len() ==> #[trigger] final(tiers)@[i] == spec_repriced_tier(
                old(tiers)@[i],
                i,
                updated_prices@,
                policy,
                block_kind,
                slot,
            ),
{
    let n = tiers.len();
    let ghost start = tiers@;
    for i in 0..n
        invariant
            n == tiers@.len() == start.len(),
            forall|j: int|
                0 <= j < i ==> #[trigger] tiers@[j] == spec_repriced_tier(
                    start[j],
                    j,
                    updated_prices@,
                    policy,
                    block_kind,
                    slot,
                ),
            forall|j: int| i <= j < n ==> #[trigger] tiers@[j] == start[j],
    {
        let mut t = tiers[i];
        if i < updated_prices.len() && block_reprices_tier(policy, &t, i, block_kind) {
            let p = updated_prices[i];
            if p != t.price {
                t.version_created_slot = slot;
            }
            t.price = p;
        }
        t.used_capacity = 0;
        t.tx_count = 0;
        tiers.set(i, t);
    }
}


/// Indices of the tiers whose neighbouring prices are capped after a block,
/// fastest first: every tier of a shared pool; the tiers of the block's lane
/// under continuous pricing; the EB tiers (after tier 0) on endorser blocks
/// of the RB-reserved layout; none otherwise.
pub open spec fn spec_boundary_cap_indices(
    tiers: Seq<Tier>,
    policy: TierBlockSelectionPolicy,
    block_kind: BlockKind,
) -> Seq<usize> {
    let all = Seq::new(tiers.len(), |i: int| i as usize);
    match policy {
        TierBlockSelectionPolicy::Shared => all,
        TierBlockSelectionPolicy::NaiveRbEbTwoTier => Seq::empty(),
        TierBlockSelectionPolicy::RbTier0Reserved => if block_kind == BlockKind::EndorserBlock
            && tiers.len() > 0 {
            all.drop_first()
        } else {
            Seq::empty()
        },
        _ => all.filter(|i: usize| tiers[i as int].lane == spec_tier_lane_for_block_kind(block_kind)),
    }
}

/// Indices of the tiers whose prices are capped pairwise after a block;
/// see `spec_boundary_cap_indices`.
pub fn boundary_cap_indices(
    tiers: &[Tier],
    policy: TierBlockSelectionPolicy,
    block_kind: BlockKind,
) -> (r: Vec<usize>)
    ensures
        r@ == spec_boundary_cap_indices(tiers@, policy, block_kind),
{
    let n = tiers.len();
    let mut out: Vec<usize> = Vec::new();
    let lane = crate::tx_pricing::tier_lane_for_block_kind(block_kind);
    let endorser = match block_kind {
        BlockKind::EndorserBlock => true,
        BlockKind::RankingBlock => false,
    };
    let ghost all = Seq::new(n as nat, |i: int| i as usize);
    for i in 0..n
        invariant
            n == tiers@.len(),
            all == Seq::new(n as nat, |i: int| i as usize),
            lane == spec_tier_lane_for_block_kind(block_kind),
            endorser == (block_kind == BlockKind::EndorserBlock),
            out@ == match policy {
                TierBlockSelectionPolicy::Shared => all.take(i as int),
                TierBlockSelectionPolicy::NaiveRbEbTwoTier => Seq::<usize>::empty(),
                TierBlockSelectionPolicy::RbTier0Reserved => if endorser && i > 0 {
                    all.take(i as int).drop_first()
                } else {
                    Seq::<usize>::empty()
                },
                _ => all.take(i as int).filter(
                    |j: usize| tiers@[j as int].lane == spec_tier_lane_for_block_kind(block_kind),
                ),
            },
    {
        proof {
            assert(all.take(i + 1).drop_last() == all.take(i as int));
            assert(all.take(i + 1).last() == i);
            reveal(Seq::filter);
            if i > 0 {
                assert(all.take(i + 1).drop_first() == all.take(i as int).drop_first().push(i));
            }
        }
        let on_lane = match (tiers[i].lane, lane) {
            (crate::tx_pricing::TierLane::Ranking, crate::tx_pricing::TierLane::Ranking) => true,
            (crate::tx_pricing::TierLane::Endorser, crate::tx_pricing::TierLane::Endorser) => true,
            _ => false,
        };
        let take = match policy {
            TierBlockSelectionPolicy::Shared => true,
            TierBlockSelectionPolicy::NaiveRbEbTwoTier => false,
            TierBlockSelectionPolicy::RbTier0Reserved => endorser && i > 0,
            _ => on_lane,
        };
        if take {
            out.push(i);
        }
    }
    assert(all.take(n as int) == all);
    out
}


/// The layouts that pin tiers to block kinds leave the other lane alone:
/// the naive two-tier layout never fires a cadence (it always keeps its two
/// tiers), and the RB-reserved layout fires none on ranking blocks.
pub proof fn lemma_partitioned_layouts_skip_cadences(
    counters: CadenceCounters,
    block_kind: BlockKind,
    slot: u64,
    cadence: CadenceConfig,
)
    ensures
        !counters.spec_advance(TierBlockSelectionPolicy::NaiveRbEbTwoTier, block_kind, slot, cadence).1.delay_update_triggered,
        !counters.spec_advance(TierBlockSelectionPolicy::NaiveRbEbTwoTier, block_kind, slot, cadence).1.tier_update_triggered,
        !counters.spec_advance(
            TierBlockSelectionPolicy::RbTier0Reserved,
            BlockKind::RankingBlock,
            slot,
            cadence,
        ).1.delay_update_triggered,
        !counters.spec_advance(
            TierBlockSelectionPolicy::RbTier0Reserved,
            BlockKind::RankingBlock,
            slot,
            cadence,
        ).1.tier_update_triggered,
{
}

/// A block of one kind does not reprice the tiers the lane-partitioned
/// layouts reserve for the other kind: their price and version stay.
pub proof fn lemma_inactive_lane_keeps_price(
    tier: Tier,
    i: int,
    updated_prices: Seq<u64>,
    policy: TierBlockSelectionPolicy,
    block_kind: BlockKind,
    slot: u64,
)
    requires
        0 <= i <= usize::MAX,
        policy.spec_is_lane_partitioned(),
        !policy.spec_allows_tier(i as usize, block_kind),
    ensures
        spec_repriced_tier(tier, i, updated_prices, policy, block_kind, slot).price == tier.price,
        spec_repriced_tier(tier, i, updated_prices, policy, block_kind, slot).version_created_slot
            == tier.version_created_slot,
{
}

} // verus!
