//! Two-lane chain-derived backend covering the four variants: RB-reserved
//! or unreserved partition, priority-only or both-dynamic controllers.
//! The multiplier-floor invariant `c_priority >= multiplier_floor *
//! c_standard` is enforced on every quote the backend returns.

use vstd::prelude::*;

use crate::arith::{clamp_u128_to_u64, sat_mul_u128, spec_clamp_u64, spec_sat_mul_u128};
use crate::chain_pricing::single_lane::{
    compute_eip1559_step, spec_compute_eip1559_step, spec_worst_case_eip1559_quote,
    worst_case_eip1559_quote, Eip1559Settings,
};
use crate::chain_pricing::window::{spec_add_all, spec_sub_all, update_aggregate};
use crate::chain_pricing::{
    BlockKind, BlockLaneBreakdown, ConfigError, Lane, LaneSelectionOrder, LaneValidityRule,
    Multiplier, PricedBlockSample, PricingBackend,
};
use crate::model::{PerLaneQuote, WindowAggregate};

verus! {

/// The four two-lane variants.
#[derive(Debug, Copy, Clone, PartialEq, Eq, Structural)]
pub enum TwoLaneVariant {
    /// RB-reserved partition; priority dynamic; standard fixed at `c = 1`.
    RbReservedPriorityOnly,
    /// RB-reserved partition; both controllers dynamic.
    RbReservedBothDynamic,
    /// No partition; priority dynamic; standard fixed at `c = 1`.
    UnreservedPriorityOnly,
    /// No partition; both controllers dynamic.
    UnreservedBothDynamic,
}

impl TwoLaneVariant {
    pub open spec fn spec_standard_dynamic(self) -> bool {
        self is RbReservedBothDynamic || self is UnreservedBothDynamic
    }

    pub open spec fn spec_rb_priority_only(self) -> bool {
        self is RbReservedPriorityOnly || self is RbReservedBothDynamic
    }

    /// Whether the standard controller responds to demand.
    pub fn standard_dynamic(self) -> (r: bool)
        ensures
            r == self.spec_standard_dynamic(),
    {
        match self {
            TwoLaneVariant::RbReservedBothDynamic | TwoLaneVariant::UnreservedBothDynamic => true,
            _ => false,
        }
    }

    /// Whether ranking blocks may only hold priority-lane transactions.
    pub fn rb_priority_only(self) -> (r: bool)
        ensures
            r == self.spec_rb_priority_only(),
    {
        match self {
            TwoLaneVariant::RbReservedPriorityOnly | TwoLaneVariant::RbReservedBothDynamic => true,
            _ => false,
        }
    }
}

/// Configuration for the two-lane backend.
#[derive(Debug, Clone, Copy, PartialEq, Eq, Structural)]
pub struct TwoLaneSettings {
    pub variant: TwoLaneVariant,
    /// Priority-controller settings (RB-reserved variants use window
    /// length 1).
    pub priority: Eip1559Settings,
    /// Standard-controller settings (used by the both-dynamic variants).
    pub standard: Eip1559Settings,
    /// `c_priority >= multiplier_floor * c_standard`.
    pub multiplier_floor: Multiplier,
    pub lane_selection_order: LaneSelectionOrder,
    /// Bytes reserved for priority transactions (one ranking block).
    pub priority_reservation_bytes: u64,
}

impl TwoLaneSettings {
    /// The outcome of `validate`, check by check in order.
    pub open spec fn spec_validate(&self) -> Result<(), ConfigError> {
        if self.priority.spec_validate() is Err {
            self.priority.spec_validate()
        } else if self.standard.spec_validate() is Err {
            self.standard.spec_validate()
        } else if self.priority.min_fee_a != self.standard.min_fee_a {
            Err(
                ConfigError::MinFeeMismatch {
                    priority: self.priority.min_fee_a,
                    standard: self.standard.min_fee_a,
                },
            )
        } else if self.multiplier_floor.denominator == 0 {
            Err(ConfigError::ZeroMultiplierFloorDenominator)
        } else if self.multiplier_floor.numerator < self.multiplier_floor.denominator {
            Err(
                ConfigError::MultiplierFloorBelowOne {
                    numerator: self.multiplier_floor.numerator,
                    denominator: self.multiplier_floor.denominator,
                },
            )
        } else if self.priority_reservation_bytes == 0 {
            Err(ConfigError::ZeroPriorityReservation)
        } else if self.multiplier_floor.numerator > 0x1_0000_0000 * self.multiplier_floor.denominator {
            Err(
                ConfigError::MultiplierFloorRatioTooLarge {
                    numerator: self.multiplier_floor.numerator,
                    denominator: self.multiplier_floor.denominator,
                },
            )
        } else {
            Ok(())
        }
    }

    /// Checks the settings; see `spec_validate`.
    pub fn validate(&self) -> (r: Result<(), ConfigError>)
        ensures
            r == self.spec_validate(),
    {
        match self.priority.validate() {
            Ok(_) => {},
            Err(e) => {
                return Err(e);
            },
        }
        match self.standard.validate() {
            Ok(_) => {},
            Err(e) => {
                return Err(e);
            },
        }
        if self.priority.min_fee_a != self.standard.min_fee_a {
            return Err(
                ConfigError::MinFeeMismatch {
                    priority: self.priority.min_fee_a,
                    standard: self.standard.min_fee_a,
                },
            );
        }
        if self.multiplier_floor.denominator == 0 {
            return Err(ConfigError::ZeroMultiplierFloorDenominator);
        }
        if self.multiplier_floor.numerator < self.multiplier_floor.denominator {
            return Err(
                ConfigError::MultiplierFloorBelowOne {
                    numerator: self.multiplier_floor.numerator,
                    denominator: self.multiplier_floor.denominator,
                },
            );
        }
        if self.priority_reservation_bytes == 0 {
            return Err(ConfigError::ZeroPriorityReservation);
        }
        let ratio_cap: u128 = 0x1_0000_0000;
        let num = self.multiplier_floor.numerator as u128;
        let den = self.multiplier_floor.denominator as u128;
        let cap = sat_mul_u128(ratio_cap, den);
        assert(ratio_cap * den <= u128::MAX) by (nonlinear_arith)
            requires
                ratio_cap == 0x1_0000_0000,
                den <= u64::MAX,
        ;
        if num > cap {
            return Err(
                ConfigError::MultiplierFloorRatioTooLarge {
                    numerator: self.multiplier_floor.numerator,
                    denominator: self.multiplier_floor.denominator,
                },
            );
        }
        Ok(())
    }

    /// The settings as the backend keeps them: RB-reserved variants use
    /// priority window length 1; priority-only variants start the standard
    /// quote at `min_fee_a`.
    pub open spec fn spec_normalised(self) -> TwoLaneSettings {
        let priority = if self.variant.spec_rb_priority_only() {
            Eip1559Settings { window_length: 1, ..self.priority }
        } else {
            self.priority
        };
        let standard = if !self.variant.spec_standard_dynamic() {
            Eip1559Settings { initial_quote_per_byte: self.standard.min_fee_a, ..self.standard }
        } else {
            self.standard
        };
        TwoLaneSettings { priority, standard, ..self }
    }
}

/// Two-controller backend; holds only (normalised, validated) settings.
#[derive(Debug)]
pub struct TwoLanePricing {
    settings: TwoLaneSettings,
}

/// `max(q_priority, ceil(num * q_standard / den))`, the floor saturated to
/// `u64`.
pub open spec fn spec_apply_floor(floor: Multiplier, q_standard: u64, q_priority: u64) -> u64 {
    let scaled = spec_sat_mul_u128(q_standard as u128, floor.numerator as u128);
    let f: int = if scaled == 0 {
        0
    } else {
        (scaled - 1) / (floor.denominator as int) + 1
    };
    let fc = spec_clamp_u64(f);
    if q_priority < fc {
        fc
    } else {
        q_priority
    }
}

/// The two-lane child aggregate: all parent samples in, all evicted out.
pub open spec fn spec_two_lane_aggregate(
    parent_aggregate: WindowAggregate,
    parent_samples: Seq<PricedBlockSample>,
    evicted_samples: Seq<PricedBlockSample>,
) -> WindowAggregate {
    spec_sub_all(spec_add_all(parent_aggregate, parent_samples), evicted_samples)
}

impl TwoLanePricing {
    #[verifier::type_invariant]
    spec fn wf(self) -> bool {
        &&& self.settings.priority.max_change_denominator > 0
        &&& self.settings.standard.max_change_denominator > 0
        &&& self.settings.multiplier_floor.denominator > 0
    }

    pub closed spec fn spec_settings(&self) -> TwoLaneSettings {
        self.settings
    }

    /// Validates `settings` and keeps their normalised form.
    pub fn new(settings: TwoLaneSettings) -> (r: Result<TwoLanePricing, ConfigError>)
        ensures
            match settings.spec_validate() {
                Ok(_) => r matches Ok(p) && p.spec_settings() == settings.spec_normalised(),
                Err(e) => r == Err::<TwoLanePricing, ConfigError>(e),
            },
    {
        match settings.validate() {
            Ok(_) => {},
            Err(e) => {
                return Err(e);
            },
        }
        let mut settings = settings;
        if settings.variant.rb_priority_only() {
            settings.priority.window_length = 1;
        }
        if !settings.variant.standard_dynamic() {
            settings.standard.initial_quote_per_byte = settings.standard.min_fee_a;
        }
        Ok(TwoLanePricing { settings })
    }

    /// The backend's variant.
    pub fn variant(&self) -> (r: TwoLaneVariant)
        ensures
            r == self.spec_settings().variant,
    {
        self.settings.variant
    }

    /// The backend's settings, as normalised at construction.
    pub fn settings(&self) -> (r: &TwoLaneSettings)
        ensures
            *r == self.spec_settings(),
    {
        &self.settings
    }

    /// Applies the multiplier floor to a `(standard, priority)` pair.
    fn apply_floor(&self, q_standard: u64, q_priority: u64) -> (r: u64)
        ensures
            r == spec_apply_floor(self.spec_settings().multiplier_floor, q_standard, q_priority),
    {
        proof {
            use_type_invariant(self);
        }
        let num = self.settings.multiplier_floor.numerator as u128;
        let den = self.settings.multiplier_floor.denominator as u128;
        let scaled = sat_mul_u128(q_standard as u128, num);
        let floor: u128 = if scaled == 0 {
            0
        } else {
            (scaled - 1) / den + 1
        };
        let floor_u64 = clamp_u128_to_u64(floor);
        if q_priority < floor_u64 {
            floor_u64
        } else {
            q_priority
        }
    }

    pub open spec fn spec_worst_case_quote_for(
        &self,
        current_quote_for_lane: u64,
        lane: Lane,
        blocks_ahead: u32,
    ) -> u64 {
        match lane {
            Lane::Standard => if !self.spec_settings().variant.spec_standard_dynamic() {
                current_quote_for_lane
            } else {
                spec_worst_case_eip1559_quote(
                    current_quote_for_lane,
                    self.spec_settings().standard.max_change_denominator,
                    blocks_ahead,
                )
            },
            Lane::Priority => spec_worst_case_eip1559_quote(
                current_quote_for_lane,
                self.spec_settings().priority.max_change_denominator,
                blocks_ahead,
            ),
        }
    }

    /// Per-lane worst-case projection; a pinned standard lane cannot move.
    pub fn worst_case_quote_for(&self, current_quote_for_lane: u64, lane: Lane, blocks_ahead: u32) -> (r:
        u64)
        ensures
            r == self.spec_worst_case_quote_for(current_quote_for_lane, lane, blocks_ahead),
    {
        match lane {
            Lane::Standard => {
                if !self.settings.variant.standard_dynamic() {
                    current_quote_for_lane
                } else {
                    worst_case_eip1559_quote(
                        current_quote_for_lane,
                        self.settings.standard.max_change_denominator,
                        blocks_ahead,
                    )
                }
            },
            Lane::Priority => worst_case_eip1559_quote(
                current_quote_for_lane,
                self.settings.priority.max_change_denominator,
                blocks_ahead,
            ),
        }
    }

    /// The priority quote before the floor: the parent's when the priority
    /// lane has no capacity in the window, otherwise one controller step.
    pub open spec fn spec_priority_step(&self, parent_quote: PerLaneQuote, agg: WindowAggregate) -> u64 {
        if agg.priority_sum_capacity == 0 {
            parent_quote.priority
        } else {
            spec_compute_eip1559_step(
                parent_quote.priority,
                agg.spec_aggregate_util(Lane::Priority),
                self.spec_settings().priority,
            )
        }
    }

    /// The standard quote: `min_fee_a` for priority-only variants; for
    /// both-dynamic ones the parent's when the standard lane has no
    /// capacity in the window, otherwise one controller step.
    pub open spec fn spec_standard_step(&self, parent_quote: PerLaneQuote, agg: WindowAggregate) -> u64 {
        if !self.spec_settings().variant.spec_standard_dynamic() {
            self.spec_settings().standard.min_fee_a
        } else if agg.standard_sum_capacity == 0 {
            parent_quote.standard
        } else {
            spec_compute_eip1559_step(
                parent_quote.standard,
                agg.spec_aggregate_util(Lane::Standard),
                self.spec_settings().standard,
            )
        }
    }

    pub open spec fn spec_cold_start_quote(&self, lane: Lane) -> u64 {
        let s = self.spec_settings();
        let standard = if s.standard.initial_quote_per_byte < s.standard.min_fee_a {
            s.standard.min_fee_a
        } else {
            s.standard.initial_quote_per_byte
        };
        match lane {
            Lane::Standard => standard,
            Lane::Priority => {
                let initial = if s.priority.initial_quote_per_byte < s.priority.min_fee_a {
                    s.priority.min_fee_a
                } else {
                    s.priority.initial_quote_per_byte
                };
                let standard_for_floor = if s.variant.spec_standard_dynamic() {
                    standard
                } else {
                    s.standard.min_fee_a
                };
                spec_apply_floor(s.multiplier_floor, standard_for_floor, initial)
            },
        }
    }

    pub open spec fn spec_samples_for_block(
        &self,
        block_kind: BlockKind,
        breakdown: BlockLaneBreakdown,
    ) -> Seq<PricedBlockSample> {
        let variant = self.spec_settings().variant;
        let standard_sample = PricedBlockSample {
            block_kind,
            controller_lane: Lane::Standard,
            relevant_bytes: breakdown.standard_paying_bytes,
            relevant_capacity: breakdown.block_capacity,
        };
        if variant.spec_rb_priority_only() {
            if block_kind is RankingBlock {
                seq![
                    PricedBlockSample {
                        block_kind,
                        controller_lane: Lane::Priority,
                        relevant_bytes: breakdown.priority_paying_bytes,
                        relevant_capacity: breakdown.block_capacity,
                    },
                ]
            } else {
                let cap = self.spec_settings().priority_reservation_bytes;
                let priority = PricedBlockSample {
                    block_kind,
                    controller_lane: Lane::Priority,
                    relevant_bytes: if breakdown.priority_paying_bytes < cap {
                        breakdown.priority_paying_bytes
                    } else {
                        cap
                    },
                    relevant_capacity: cap,
                };
                if variant is RbReservedBothDynamic {
                    seq![priority, standard_sample]
                } else {
                    seq![priority]
                }
            }
        } else {
            let priority = PricedBlockSample {
                block_kind,
                controller_lane: Lane::Priority,
                relevant_bytes: breakdown.priority_paying_bytes,
                relevant_capacity: breakdown.block_capacity,
            };
            if variant is UnreservedBothDynamic {
                seq![priority, standard_sample]
            } else {
                seq![priority]
            }
        }
    }
}

impl PricingBackend for TwoLanePricing {
    /// Folds all samples into the aggregate, steps each controller (or pins
    /// the standard lane), then raises the priority quote to the
    /// multiplier floor.
    fn compute_derived_quote(
        &self,
        parent_quote: PerLaneQuote,
        parent_aggregate: WindowAggregate,
        parent_samples: &[PricedBlockSample],
        evicted_samples: &[PricedBlockSample],
    ) -> (r: (PerLaneQuote, WindowAggregate))
        ensures
            r.1 == spec_two_lane_aggregate(parent_aggregate, parent_samples@, evicted_samples@),
            r.0.standard == self.spec_standard_step(parent_quote, r.1),
            r.0.priority == spec_apply_floor(
                self.spec_settings().multiplier_floor,
                r.0.standard,
                self.spec_priority_step(parent_quote, r.1),
            ),
    {
        proof {
            use_type_invariant(self);
        }
        let window_length = if self.settings.priority.window_length
            < self.settings.standard.window_length {
            self.settings.standard.window_length
        } else {
            self.settings.priority.window_length
        };
        let new_aggregate = update_aggregate(
            parent_aggregate,
            parent_samples,
            evicted_samples,
            window_length,
        );
        let priority_quote = if new_aggregate.priority_sum_capacity == 0 {
            parent_quote.priority
        } else {
            let util = new_aggregate.aggregate_util(Lane::Priority);
            compute_eip1559_step(parent_quote.priority, util, &self.settings.priority)
        };
        let standard_quote = if self.settings.variant.standard_dynamic() {
            if new_aggregate.standard_sum_capacity == 0 {
                parent_quote.standard
            } else {
                let util = new_aggregate.aggregate_util(Lane::Standard);
                compute_eip1559_step(parent_quote.standard, util, &self.settings.standard)
            }
        } else {
            self.settings.standard.min_fee_a
        };
        let priority_quote_floored = self.apply_floor(standard_quote, priority_quote);
        (PerLaneQuote { standard: standard_quote, priority: priority_quote_floored }, new_aggregate)
    }

    /// The larger of the two lanes' window lengths.
    fn effective_window_length(&self) -> (r: usize)
        ensures
            r == if self.spec_settings().priority.window_length
                < self.spec_settings().standard.window_length {
                self.spec_settings().standard.window_length
            } else {
                self.spec_settings().priority.window_length
            },
    {
        if self.settings.priority.window_length < self.settings.standard.window_length {
            self.settings.standard.window_length
        } else {
            self.settings.priority.window_length
        }
    }

    /// Standard: `max(initial, min_fee_a)`; priority: the same for the
    /// priority settings, raised to the multiplier floor over the standard
    /// cold-start quote.
    fn cold_start_quote(&self, lane: Lane) -> (r: u64)
        ensures
            r == self.spec_cold_start_quote(lane),
    {
        let standard = if self.settings.standard.initial_quote_per_byte
            < self.settings.standard.min_fee_a {
            self.settings.standard.min_fee_a
        } else {
            self.settings.standard.initial_quote_per_byte
        };
        match lane {
            Lane::Standard => standard,
            Lane::Priority => {
                let initial = if self.settings.priority.initial_quote_per_byte
                    < self.settings.priority.min_fee_a {
                    self.settings.priority.min_fee_a
                } else {
                    self.settings.priority.initial_quote_per_byte
                };
                let standard_for_floor = if self.settings.variant.standard_dynamic() {
                    standard
                } else {
                    self.settings.standard.min_fee_a
                };
                self.apply_floor(standard_for_floor, initial)
            },
        }
    }

    /// Ranking blocks of RB-reserved variants admit priority transactions
    /// only.
    fn lane_validity_rule(&self, block_kind: BlockKind) -> (r: LaneValidityRule)
        ensures
            r == if block_kind is RankingBlock && self.spec_settings().variant.spec_rb_priority_only() {
                LaneValidityRule::PriorityOnly
            } else {
                LaneValidityRule::Unrestricted
            },
    {
        match (block_kind, self.settings.variant.rb_priority_only()) {
            (BlockKind::RankingBlock, true) => LaneValidityRule::PriorityOnly,
            _ => LaneValidityRule::Unrestricted,
        }
    }

    fn lane_selection_order(&self) -> (r: LaneSelectionOrder)
        ensures
            r == self.spec_settings().lane_selection_order,
    {
        self.settings.lane_selection_order
    }

    fn min_priority_premium_multiplier(&self) -> (r: Option<Multiplier>)
        ensures
            r == Some(self.spec_settings().multiplier_floor),
    {
        Some(self.settings.multiplier_floor)
    }

    /// Per-variant sample emission; see `spec_samples_for_block`.
    fn samples_for_block(&self, block_kind: BlockKind, breakdown: &BlockLaneBreakdown) -> (r: Vec<
        PricedBlockSample,
    >)
        ensures
            r@ == self.spec_samples_for_block(block_kind, *breakdown),
    {
        let variant = self.settings.variant;
        let standard_sample = PricedBlockSample {
            block_kind,
            controller_lane: Lane::Standard,
            relevant_bytes: breakdown.standard_paying_bytes,
            relevant_capacity: breakdown.block_capacity,
        };
        if variant.rb_priority_only() {
            match block_kind {
                BlockKind::RankingBlock => {
                    let out = vec![PricedBlockSample {
                        block_kind,
                        controller_lane: Lane::Priority,
                        relevant_bytes: breakdown.priority_paying_bytes,
                        relevant_capacity: breakdown.block_capacity,
                    }];
                    assert(out@ =~= self.spec_samples_for_block(block_kind, *breakdown));
                    out
                },
                BlockKind::EndorserBlock => {
                    let cap = self.settings.priority_reservation_bytes;
                    let priority_bytes = if breakdown.priority_paying_bytes < cap {
                        breakdown.priority_paying_bytes
                    } else {
                        cap
                    };
                    let mut out = vec![PricedBlockSample {
                        block_kind,
                        controller_lane: Lane::Priority,
                        relevant_bytes: priority_bytes,
                        relevant_capacity: cap,
                    }];
                    if variant == TwoLaneVariant::RbReservedBothDynamic {
                        out.push(standard_sample);
                    }
                    assert(out@ =~= self.spec_samples_for_block(block_kind, *breakdown));
                    out
                },
            }
        } else {
            let mut out = vec![PricedBlockSample {
                block_kind,
                controller_lane: Lane::Priority,
                relevant_bytes: breakdown.priority_paying_bytes,
                relevant_capacity: breakdown.block_capacity,
            }];
            if variant == TwoLaneVariant::UnreservedBothDynamic {
                out.push(standard_sample);
            }
            assert(out@ =~= self.spec_samples_for_block(block_kind, *breakdown));
            out
        }
    }
}

} // verus!
