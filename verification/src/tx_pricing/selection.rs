//! Tier selection by submitters: the tier that maximises the value kept at
//! the tier's (modelled) delay minus the fee, with ties broken by lower
//! delay, lower fee and lower tier id; and the choice between the ranking
//! and endorser lanes.

use vstd::prelude::*;

use crate::arith::spec_sat_add_u64;
use crate::model::{TierId, Transaction};
use crate::tx_pricing::{
    spec_block_kind_for_tier_lane, BlockKind, PricingSnapshot, TierLane, TierQuote,
};

verus! {

/// How the delay that enters a submitter's utility is modelled.
#[derive(Debug, Copy, Clone, PartialEq, Eq, Structural)]
pub enum TierSelectionDelayModel {
    /// The tier's own delay.
    TierDelay,
    /// Tier 0 maps to the RB path, every other tier to the EB path.
    NaiveRbEbTwoTierPath { rb_path_latency: u64, eb_path_latency: u64 },
    /// The lane's path latency plus the tier delay beyond one slot.
    LanePathPlusTierDelay { rb_path_latency: u64, eb_path_latency: u64 },
}

/// Extra delay charged per lane during lane selection.
#[derive(Debug, Copy, Clone, PartialEq, Eq, Structural)]
pub struct LaneDelayAdjustments {
    pub ranking_extra_delay: u64,
    pub endorser_extra_delay: u64,
}

impl Default for LaneDelayAdjustments {
    fn default() -> (r: LaneDelayAdjustments)
        ensures
            r.ranking_extra_delay == 0,
            r.endorser_extra_delay == 0,
    {
        LaneDelayAdjustments { ranking_extra_delay: 0, endorser_extra_delay: 0 }
    }
}

pub open spec fn spec_max1(x: u64) -> u64 {
    if x < 1 {
        1
    } else {
        x
    }
}

impl TierSelectionDelayModel {
    pub open spec fn spec_utility_delay_units_for_lane(
        self,
        lane: BlockKind,
        tier_delay_slots: u64,
        tier_id: Option<TierId>,
    ) -> u64 {
        match self {
            TierSelectionDelayModel::TierDelay => tier_delay_slots,
            TierSelectionDelayModel::NaiveRbEbTwoTierPath { rb_path_latency, eb_path_latency } => {
                if tier_id == Some(TierId(0)) {
                    spec_max1(rb_path_latency)
                } else {
                    spec_max1(eb_path_latency)
                }
            },
            TierSelectionDelayModel::LanePathPlusTierDelay { rb_path_latency, eb_path_latency } => {
                let lane_path = match lane {
                    BlockKind::RankingBlock => spec_max1(rb_path_latency),
                    BlockKind::EndorserBlock => spec_max1(eb_path_latency),
                };
                spec_sat_add_u64(
                    lane_path,
                    if tier_delay_slots == 0 {
                        0
                    } else {
                        (tier_delay_slots - 1) as u64
                    },
                )
            },
        }
    }

    /// Delay units that enter the utility of a tier on `lane`.
    pub fn utility_delay_units_for_lane(
        self,
        lane: BlockKind,
        tier_delay_slots: u64,
        tier_id: Option<TierId>,
    ) -> (r: u64)
        ensures
            r == self.spec_utility_delay_units_for_lane(lane, tier_delay_slots, tier_id),
    {
        match self {
            TierSelectionDelayModel::TierDelay => tier_delay_slots,
            TierSelectionDelayModel::NaiveRbEbTwoTierPath { rb_path_latency, eb_path_latency } => {
                let is_tier0 = match tier_id {
                    Some(id) => id.0 == 0,
                    None => false,
                };
                if is_tier0 {
                    if rb_path_latency < 1 {
                        1
                    } else {
                        rb_path_latency
                    }
                } else {
                    if eb_path_latency < 1 {
                        1
                    } else {
                        eb_path_latency
                    }
                }
            },
            TierSelectionDelayModel::LanePathPlusTierDelay { rb_path_latency, eb_path_latency } => {
                let lane_path = match lane {
                    BlockKind::RankingBlock => if rb_path_latency < 1 {
                        1
                    } else {
                        rb_path_latency
                    },
                    BlockKind::EndorserBlock => if eb_path_latency < 1 {
                        1
                    } else {
                        eb_path_latency
                    },
                };
                lane_path.saturating_add(tier_delay_slots.saturating_sub(1))
            },
        }
    }

    pub open spec fn spec_utility_delay_units_for_lane_with_adjustments(
        self,
        lane: BlockKind,
        tier_delay_slots: u64,
        tier_id: Option<TierId>,
        delay_adjustments: LaneDelayAdjustments,
    ) -> u64 {
        spec_sat_add_u64(
            self.spec_utility_delay_units_for_lane(lane, tier_delay_slots, tier_id),
            match lane {
                BlockKind::RankingBlock => delay_adjustments.ranking_extra_delay,
                BlockKind::EndorserBlock => delay_adjustments.endorser_extra_delay,
            },
        )
    }

    /// Utility delay units plus the lane's extra delay, saturating.
    pub fn utility_delay_units_for_lane_with_adjustments(
        self,
        lane: BlockKind,
        tier_delay_slots: u64,
        tier_id: Option<TierId>,
        delay_adjustments: LaneDelayAdjustments,
    ) -> (r: u64)
        ensures
            r == self.spec_utility_delay_units_for_lane_with_adjustments(
                lane,
                tier_delay_slots,
                tier_id,
                delay_adjustments,
            ),
    {
        let base = self.utility_delay_units_for_lane(lane, tier_delay_slots, tier_id);
        let extra = match lane {
            BlockKind::RankingBlock => delay_adjustments.ranking_extra_delay,
            BlockKind::EndorserBlock => delay_adjustments.endorser_extra_delay,
        };
        base.saturating_add(extra)
    }

    pub open spec fn spec_utility_delay_units(self, tier: TierQuote) -> u64 {
        self.spec_utility_delay_units_for_lane(
            spec_block_kind_for_tier_lane(tier.lane),
            tier.delay,
            Some(tier.id),
        )
    }

    /// Utility delay units of a quoted tier on its own lane.
    pub fn utility_delay_units(self, tier: &TierQuote) -> (r: u64)
        ensures
            r == self.spec_utility_delay_units(*tier),
    {
        let lane = match tier.lane {
            TierLane::Ranking => BlockKind::RankingBlock,
            TierLane::Endorser => BlockKind::EndorserBlock,
        };
        self.utility_delay_units_for_lane(lane, tier.delay, Some(tier.id))
    }
}

/// Value kept by `tx` at the tier's utility delay, minus the tier's fee.
pub open spec fn spec_tier_utility(tx: Transaction, tier: TierQuote, model: TierSelectionDelayModel) -> int {
    tx.urgency.spec_value_at_delay(tx.value, model.spec_utility_delay_units(tier)) as int
        - tier.spec_required_fee(tx.bytes) as int
}

/// Tier `a` is strictly preferred to tier `b`: higher utility, then lower
/// utility delay, then lower fee, then lower tier id.
pub open spec fn spec_tier_beats(
    tx: Transaction,
    a: TierQuote,
    b: TierQuote,
    model: TierSelectionDelayModel,
) -> bool {
    let ua = spec_tier_utility(tx, a, model);
    let ub = spec_tier_utility(tx, b, model);
    let da = model.spec_utility_delay_units(a);
    let db = model.spec_utility_delay_units(b);
    let ra = a.spec_required_fee(tx.bytes);
    let rb = b.spec_required_fee(tx.bytes);
    ua > ub || (ua == ub && (da < db || (da == db && (ra < rb || (ra == rb && a.id.0 < b.id.0)))))
}

/// Index of the tier chosen among `tiers`: scanning in order, a tier with
/// non-negative utility replaces the current choice when it beats it.
pub open spec fn spec_select_index(
    tx: Transaction,
    tiers: Seq<TierQuote>,
    model: TierSelectionDelayModel,
) -> Option<int>
    decreases tiers.len(),
{
    if tiers.len() == 0 {
        None
    } else {
        let prev = spec_select_index(tx, tiers.drop_last(), model);
        let i = tiers.len() - 1;
        if spec_tier_utility(tx, tiers[i], model) < 0 {
            prev
        } else {
            match prev {
                None => Some(i),
                Some(b) => if spec_tier_beats(tx, tiers[i], tiers[b], model) {
                    Some(i)
                } else {
                    prev
                },
            }
        }
    }
}

/// The chosen tier as `(id, version_created_slot, required_fee, delay,
/// price_per_byte)`.
pub open spec fn spec_select_tier_for_tx(
    tx: Transaction,
    tiers: Seq<TierQuote>,
    model: TierSelectionDelayModel,
) -> Option<(TierId, u64, u64, u64, u64)> {
    match spec_select_index(tx, tiers, model) {
        None => None,
        Some(i) => Some(
            (
                tiers[i].id,
                tiers[i].version_created_slot,
                tiers[i].spec_required_fee(tx.bytes),
                tiers[i].delay,
                tiers[i].price_per_byte,
            ),
        ),
    }
}

proof fn lemma_select_index_prefix(tx: Transaction, tiers: Seq<TierQuote>, model: TierSelectionDelayModel, i: int)
    requires
        0 <= i < tiers.len(),
    ensures
        spec_select_index(tx, tiers.take(i + 1), model) == {
            let prev = spec_select_index(tx, tiers.take(i), model);
            if spec_tier_utility(tx, tiers[i], model) < 0 {
                prev
            } else {
                match prev {
                    None => Some(i),
                    Some(b) => if spec_tier_beats(tx, tiers[i], tiers[b], model) {
                        Some(i)
                    } else {
                        prev
                    },
                }
            }
        },
{
    let t = tiers.take(i + 1);
    assert(t.drop_last() =~= tiers.take(i));
    assert(t[i] == tiers[i]);
    let prev = spec_select_index(tx, tiers.take(i), model);
    if let Some(b) = prev {
        lemma_select_index_in_range(tx, tiers.take(i), model);
        assert(t[b] == tiers[b]);
    }
}

proof fn lemma_select_index_in_range(tx: Transaction, tiers: Seq<TierQuote>, model: TierSelectionDelayModel)
    ensures
        spec_select_index(tx, tiers, model) matches Some(b) ==> 0 <= b < tiers.len()
            && spec_tier_utility(tx, tiers[b], model) >= 0,
    decreases tiers.len(),
{
    if tiers.len() > 0 {
        let p = tiers.drop_last();
        lemma_select_index_in_range(tx, p, model);
        if let Some(b) = spec_select_index(tx, p, model) {
            assert(tiers[b] == p[b]);
        }
    }
}

/// The tier that maximises the submitter's utility (value kept at the
/// modelled delay minus the required fee) among tiers with non-negative
/// utility; ties go to lower utility delay, then lower fee, then lower
/// tier id, then the earlier tier. Returns `(tier_id,
/// version_created_slot, required_fee, settlement_delay, price_per_byte)`.
pub fn select_tier_for_tx(
    tx: &Transaction,
    pricing: &PricingSnapshot,
    delay_model: TierSelectionDelayModel,
) -> (r: Option<(TierId, u64, u64, u64, u64)>)
    ensures
        r == spec_select_tier_for_tx(*tx, pricing.tiers@, delay_model),
{
    let tiers = &pricing.tiers;
    let n = tiers.len();
    let mut best: Option<usize> = None;
    let mut best_utility: i128 = 0;
    let mut best_delay: u64 = 0;
    let mut best_required: u64 = 0;
    for i in 0..n
        invariant
            n == tiers@.len(),
            tiers == &pricing.tiers,
            best matches Some(b) ==> b < i,
            spec_select_index(*tx, tiers@.take(i as int), delay_model) == match best {
                Some(b) => Some(b as int),
                None => None::<int>,
            },
            best matches Some(b) ==> {
                &&& best_utility == spec_tier_utility(*tx, tiers@[b as int], delay_model)
                &&& best_delay == delay_model.spec_utility_delay_units(tiers@[b as int])
                &&& best_required == tiers@[b as int].spec_required_fee(tx.bytes)
            },
    {
        proof {
            lemma_select_index_prefix(*tx, tiers@, delay_model, i as int);
        }
        let tier = &tiers[i];
        let required = tier.required_fee(tx.bytes);
        let utility_delay_units = delay_model.utility_delay_units(tier);
        let value_at_delay = tx.urgency.value_at_delay(tx.value, utility_delay_units);
        let utility = value_at_delay as i128 - required as i128;
        if utility >= 0 {
            let should_replace = match best {
                None => true,
                Some(b) => {
                    let best_id = tiers[b].id.0;
                    utility > best_utility || (utility == best_utility && (utility_delay_units
                        < best_delay || (utility_delay_units == best_delay && (required
                        < best_required || (required == best_required && tier.id.0 < best_id)))))
                },
            };
            if should_replace {
                best = Some(i);
                best_utility = utility;
                best_delay = utility_delay_units;
                best_required = required;
            }
        }
    }
    assert(tiers@.take(n as int) == tiers@);
    match best {
        None => None,
        Some(b) => {
            let t = &tiers[b];
            Some((t.id, t.version_created_slot, t.required_fee(tx.bytes), t.delay, t.price_per_byte))
        },
    }
}

proof fn lemma_beats_strict_order(
    tx: Transaction,
    a: TierQuote,
    b: TierQuote,
    c: TierQuote,
    model: TierSelectionDelayModel,
)
    ensures
        !spec_tier_beats(tx, a, a, model),
        spec_tier_beats(tx, a, b, model) && spec_tier_beats(tx, b, c, model) ==> spec_tier_beats(
            tx,
            a,
            c,
            model,
        ),
{
}

/// The chosen tier is optimal: every tier with non-negative utility is
/// either the chosen one or does not beat it; and a tier is chosen exactly
/// when some tier has non-negative utility.
pub proof fn lemma_select_tier_is_optimal(
    tx: Transaction,
    tiers: Seq<TierQuote>,
    model: TierSelectionDelayModel,
)
    ensures
        spec_select_index(tx, tiers, model) is None <==> forall|j: int|
            0 <= j < tiers.len() ==> spec_tier_utility(tx, #[trigger] tiers[j], model) < 0,
        spec_select_index(tx, tiers, model) matches Some(b) ==> {
            &&& 0 <= b < tiers.len()
            &&& spec_tier_utility(tx, tiers[b], model) >= 0
            &&& forall|j: int|
                0 <= j < tiers.len() && spec_tier_utility(tx, #[trigger] tiers[j], model) >= 0
                    ==> !spec_tier_beats(tx, tiers[j], tiers[b], model)
        },
    decreases tiers.len(),
{
    lemma_select_index_in_range(tx, tiers, model);
    if tiers.len() > 0 {
        let p = tiers.drop_last();
        let i = tiers.len() - 1;
        lemma_select_tier_is_optimal(tx, p, model);
        assert forall|j: int| 0 <= j < p.len() implies #[trigger] p[j] == tiers[j] by {}
        let ti = tiers[i];
        let ui = spec_tier_utility(tx, ti, model);
        match spec_select_index(tx, p, model) {
            None => {
                assert forall|j: int| 0 <= j < i implies spec_tier_utility(
                    tx,
                    #[trigger] tiers[j],
                    model,
                ) < 0 by {
                    assert(p[j] == tiers[j]);
                }
                if ui >= 0 {
                    lemma_beats_strict_order(tx, ti, ti, ti, model);
                    assert(spec_select_index(tx, tiers, model) == Some(i));
                } else {
                    assert(spec_select_index(tx, tiers, model) is None);
                }
            },
            Some(b) => {
                assert(p[b] == tiers[b]);
                let tb = tiers[b];
                if ui >= 0 && spec_tier_beats(tx, ti, tb, model) {
                    assert(spec_select_index(tx, tiers, model) == Some(i));
                    assert forall|j: int|
                        0 <= j < tiers.len() && spec_tier_utility(tx, #[trigger] tiers[j], model)
                            >= 0 implies !spec_tier_beats(tx, tiers[j], ti, model) by {
                        lemma_beats_strict_order(tx, tiers[j], ti, tb, model);
                        if j < i {
                            assert(p[j] == tiers[j]);
                            assert(!spec_tier_beats(tx, p[j], p[b], model));
                        }
                    }
                } else {
                    assert(spec_select_index(tx, tiers, model) == Some(b));
                    assert forall|j: int|
                        0 <= j < tiers.len() && spec_tier_utility(tx, #[trigger] tiers[j], model)
                            >= 0 implies !spec_tier_beats(tx, tiers[j], tb, model) by {
                        if j < i {
                            assert(p[j] == tiers[j]);
                            assert(!spec_tier_beats(tx, p[j], p[b], model));
                        }
                    }
                }
            },
        }
    }
}

/// A tier chosen on one lane, as recorded on the transaction.
#[derive(Debug, Clone, Copy, PartialEq, Eq, Structural)]
pub struct LaneTierSelection {
    pub block_kind: BlockKind,
    pub tier_id: TierId,
    pub tier_version_created_slot: u64,
    pub posted_fee: u64,
    pub tier_delay_slots: u64,
    pub tier_price_per_byte_at_assignment: u64,
}

/// Utility of a lane candidate under the lane's adjusted delay, and that
/// delay.
pub open spec fn spec_candidate_utility(
    tx: Transaction,
    lane: BlockKind,
    tier_id: TierId,
    required_fee: u64,
    tier_delay_slots: u64,
    model: TierSelectionDelayModel,
    adjustments: LaneDelayAdjustments,
) -> (int, u64) {
    let utility_delay = model.spec_utility_delay_units_for_lane_with_adjustments(
        lane,
        tier_delay_slots,
        Some(tier_id),
        adjustments,
    );
    (
        tx.urgency.spec_value_at_delay(tx.value, utility_delay) as int - required_fee as int,
        utility_delay,
    )
}

fn candidate_utility(
    tx: &Transaction,
    lane: BlockKind,
    tier_id: TierId,
    required_fee: u64,
    tier_delay_slots: u64,
    delay_model: TierSelectionDelayModel,
    delay_adjustments: LaneDelayAdjustments,
) -> (r: (i128, u64))
    ensures
        r.0 as int == spec_candidate_utility(
            *tx,
            lane,
            tier_id,
            required_fee,
            tier_delay_slots,
            delay_model,
            delay_adjustments,
        ).0,
        r.1 == spec_candidate_utility(
            *tx,
            lane,
            tier_id,
            required_fee,
            tier_delay_slots,
            delay_model,
            delay_adjustments,
        ).1,
{
    let utility_delay = delay_model.utility_delay_units_for_lane_with_adjustments(
        lane,
        tier_delay_slots,
        Some(tier_id),
        delay_adjustments,
    );
    let value_at_delay = tx.urgency.value_at_delay(tx.value, utility_delay);
    (value_at_delay as i128 - required_fee as i128, utility_delay)
}

/// A lane's candidate: its chosen tier, if its adjusted utility is
/// non-negative, as `(utility, utility_delay, selection)`.
pub open spec fn spec_lane_candidate(
    tx: Transaction,
    lane: BlockKind,
    choice: Option<(TierId, u64, u64, u64, u64)>,
    model: TierSelectionDelayModel,
    adjustments: LaneDelayAdjustments,
) -> Option<(int, u64, LaneTierSelection)> {
    match choice {
        None => None,
        Some((tier_id, created, fee, delay, price)) => {
            let (u, d) = spec_candidate_utility(tx, lane, tier_id, fee, delay, model, adjustments);
            if u >= 0 {
                Some(
                    (
                        u,
                        d,
                        LaneTierSelection {
                            block_kind: lane,
                            tier_id,
                            tier_version_created_slot: created,
                            posted_fee: fee,
                            tier_delay_slots: delay,
                            tier_price_per_byte_at_assignment: price,
                        },
                    ),
                )
            } else {
                None
            }
        },
    }
}

/// The lane choice: the endorser candidate replaces the ranking one only
/// when it has higher adjusted utility, or equal utility and lower delay,
/// or equal both and a lower fee.
pub open spec fn spec_select_best_lane(
    tx: Transaction,
    rb_tiers: Seq<TierQuote>,
    eb_tiers: Seq<TierQuote>,
    model: TierSelectionDelayModel,
    adjustments: LaneDelayAdjustments,
) -> Option<LaneTierSelection> {
    let rb = spec_lane_candidate(
        tx,
        BlockKind::RankingBlock,
        spec_select_tier_for_tx(tx, rb_tiers, model),
        model,
        adjustments,
    );
    let eb = spec_lane_candidate(
        tx,
        BlockKind::EndorserBlock,
        spec_select_tier_for_tx(tx, eb_tiers, model),
        model,
        adjustments,
    );
    match (rb, eb) {
        (None, None) => None,
        (Some((_, _, s)), None) => Some(s),
        (None, Some((_, _, s))) => Some(s),
        (Some((ur, dr, sr)), Some((ue, de, se))) => {
            if ue > ur || (ue == ur && (de < dr || (de == dr && se.posted_fee < sr.posted_fee))) {
                Some(se)
            } else {
                Some(sr)
            }
        },
    }
}

/// Picks the best tier on each lane, then the better lane under the
/// lane delay adjustments; see `spec_select_best_lane`.
pub fn select_best_lane_tier_for_tx_with_adjustments(
    tx: &Transaction,
    rb_pricing: &PricingSnapshot,
    eb_pricing: &PricingSnapshot,
    delay_model: TierSelectionDelayModel,
    delay_adjustments: LaneDelayAdjustments,
) -> (r: Option<LaneTierSelection>)
    ensures
        r == spec_select_best_lane(
            *tx,
            rb_pricing.tiers@,
            eb_pricing.tiers@,
            delay_model,
            delay_adjustments,
        ),
{
    let rb = select_tier_for_tx(tx, rb_pricing, delay_model);
    let eb = select_tier_for_tx(tx, eb_pricing, delay_model);
    let mut best: Option<(i128, u64, u64, LaneTierSelection)> = None;
    let ghost rb_cand = spec_lane_candidate(
        *tx,
        BlockKind::RankingBlock,
        rb,
        delay_model,
        delay_adjustments,
    );
    let ghost eb_cand = spec_lane_candidate(
        *tx,
        BlockKind::EndorserBlock,
        eb,
        delay_model,
        delay_adjustments,
    );
    if let Some((tier_id, created, posted_fee, delay, price)) = rb {
        let (utility, utility_delay) = candidate_utility(
            tx,
            BlockKind::RankingBlock,
            tier_id,
            posted_fee,
            delay,
            delay_model,
            delay_adjustments,
        );
        if utility >= 0 {
            let selection = LaneTierSelection {
                block_kind: BlockKind::RankingBlock,
                tier_id,
                tier_version_created_slot: created,
                posted_fee,
                tier_delay_slots: delay,
                tier_price_per_byte_at_assignment: price,
            };
            best = Some((utility, utility_delay, posted_fee, selection));
        }
    }
    assert(match best {
        None => rb_cand is None,
        Some((u, d, f, s)) => rb_cand == Some((u as int, d, s)) && f == s.posted_fee,
    });
    if let Some((tier_id, created, posted_fee, delay, price)) = eb {
        let (utility, utility_delay) = candidate_utility(
            tx,
            BlockKind::EndorserBlock,
            tier_id,
            posted_fee,
            delay,
            delay_model,
            delay_adjustments,
        );
        if utility >= 0 {
            let selection = LaneTierSelection {
                block_kind: BlockKind::EndorserBlock,
                tier_id,
                tier_version_created_slot: created,
                posted_fee,
                tier_delay_slots: delay,
                tier_price_per_byte_at_assignment: price,
            };
            let replace = match best {
                None => true,
                Some((best_utility, best_delay, best_fee, _)) => {
                    utility > best_utility || (utility == best_utility && (utility_delay
                        < best_delay || (utility_delay == best_delay && posted_fee < best_fee)))
                },
            };
            if replace {
                best = Some((utility, utility_delay, posted_fee, selection));
            }
        }
    }
    match best {
        Some((_, _, _, selection)) => Some(selection),
        None => None,
    }
}

/// `select_best_lane_tier_for_tx_with_adjustments` without lane delay
/// adjustments.
pub fn select_best_lane_tier_for_tx(
    tx: &Transaction,
    rb_pricing: &PricingSnapshot,
    eb_pricing: &PricingSnapshot,
    delay_model: TierSelectionDelayModel,
) -> (r: Option<LaneTierSelection>)
    ensures
        r == spec_select_best_lane(
            *tx,
            rb_pricing.tiers@,
            eb_pricing.tiers@,
            delay_model,
            LaneDelayAdjustments { ranking_extra_delay: 0, endorser_extra_delay: 0 },
        ),
{
    select_best_lane_tier_for_tx_with_adjustments(
        tx,
        rb_pricing,
        eb_pricing,
        delay_model,
        LaneDelayAdjustments::default(),
    )
}

} // verus!
