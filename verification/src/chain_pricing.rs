//! Chain-derived pricing: a backend is a pure function from the parent
//! block's quote and window aggregate (plus the samples entering and leaving
//! the window) to the child block's quote and aggregate. All arithmetic is on
//! `u64`/`u128` integers and rationals.

pub mod single_lane;
pub mod two_lane;
pub mod window;
pub mod laws;



pub use window::{aggregate_from_chain, update_aggregate};

use vstd::prelude::*;

use crate::model::{BlockId, PerLaneQuote, WindowAggregate};
use crate::tx_pricing::config_rules::{decimal_u128, spec_decimal};
use vstd::string::StringExecFns;

verus! {

/// One of two transaction lanes. Single-lane mechanisms always use
/// `Standard`; two-lane mechanisms use both.
#[derive(Debug, Copy, Clone, PartialEq, Eq, Structural, Hash, PartialOrd, Ord)]
pub enum Lane {
    Standard,
    Priority,
}

/// Kind of a priced block.
#[derive(Debug, Copy, Clone, PartialEq, Eq, Structural, Hash)]
pub enum BlockKind {
    RankingBlock,
    EndorserBlock,
}

/// Lane-validity rule for a block being assembled.
#[derive(Debug, Copy, Clone, PartialEq, Eq, Structural)]
pub enum LaneValidityRule {
    Unrestricted,
    PriorityOnly,
}

/// Order in which the mempool is scanned when packing a block.
#[derive(Debug, Copy, Clone, PartialEq, Eq, Structural)]
pub enum LaneSelectionOrder {
    PriorityFirst,
    Fifo,
}

/// One sample fed to a controller for a single priced block.
#[derive(Debug, Clone, Copy, PartialEq, Eq, Structural)]
pub struct PricedBlockSample {
    pub block_kind: BlockKind,
    pub controller_lane: Lane,
    pub relevant_bytes: u64,
    pub relevant_capacity: u64,
}

/// Lane breakdown of a priced block's transaction bytes.
#[derive(Debug, Clone, Copy, PartialEq, Eq, Structural)]
pub struct BlockLaneBreakdown {
    /// Bytes of transactions posted to the priority lane.
    pub priority_paying_bytes: u64,
    /// Bytes of transactions posted to the standard lane.
    pub standard_paying_bytes: u64,
    /// The block's own capacity.
    pub block_capacity: u64,
}

/// Errors found when validating a pricing configuration.
#[derive(Debug, Clone, Copy, PartialEq, Eq, Structural)]
pub enum ConfigError {
    /// A multiplier has a zero denominator.
    ZeroDenominator,
    /// `min_fee_a` is zero.
    ZeroMinFee,
    /// `target_den` is zero.
    ZeroTargetDenominator,
    /// `target_num / target_den` is not a fraction in (0, 1).
    TargetNotInUnitInterval { target_num: u64, target_den: u64 },
    /// `max_change_denominator` is zero.
    ZeroMaxChangeDenominator,
    /// `window_length` is zero.
    ZeroWindowLength,
    /// `window_length * target_num * max_change_denominator` exceeds the
    /// budget that keeps the controller's intermediates inside `u128`;
    /// `product` is that product where it fits in `u128`.
    ControllerOverflowBudget {
        window_length: usize,
        target_num: u64,
        max_change_denominator: u64,
        product: Option<u128>,
    },
    /// The two lanes' `min_fee_a` differ.
    MinFeeMismatch { priority: u64, standard: u64 },
    /// The multiplier floor has a zero denominator.
    ZeroMultiplierFloorDenominator,
    /// The multiplier floor is below one.
    MultiplierFloorBelowOne { numerator: u64, denominator: u64 },
    /// `priority_reservation_bytes` is zero.
    ZeroPriorityReservation,
    /// The multiplier-floor ratio exceeds `2^32`.
    MultiplierFloorRatioTooLarge { numerator: u64, denominator: u64 },
}

impl ConfigError {
    /// The error's text.
    pub open spec fn spec_message(self) -> Seq<char> {
        match self {
            ConfigError::ZeroDenominator => "Multiplier denominator must be non-zero"@,
            ConfigError::ZeroMinFee => "Eip1559Settings.min_fee_a must be non-zero"@,
            ConfigError::ZeroTargetDenominator => "Eip1559Settings.target_den must be non-zero"@,
            ConfigError::TargetNotInUnitInterval { target_num, target_den } =>
                "Eip1559Settings.target_num/target_den must be a fraction in (0, 1); got "@
                    + spec_decimal(target_num as nat) + "/"@ + spec_decimal(target_den as nat),
            ConfigError::ZeroMaxChangeDenominator =>
                "Eip1559Settings.max_change_denominator must be non-zero"@,
            ConfigError::ZeroWindowLength => "Eip1559Settings.window_length must be non-zero"@,
            ConfigError::ControllerOverflowBudget {
                window_length,
                target_num,
                max_change_denominator,
                product,
            } => "Eip1559Settings: controller intermediates may overflow u128: window_length ("@
                + spec_decimal(window_length as nat) + ") \u{d7} target_num ("@ + spec_decimal(target_num as nat) + ") \u{d7} max_change_denominator ("@ + spec_decimal(max_change_denominator as nat)
                + ") must be \u{2264} 2^23 = 8388608; got product "@ + match product {
                Some(p) => "Some("@ + spec_decimal(p as nat) + ")"@,
                None => "None"@,
            },
            ConfigError::MinFeeMismatch { priority, standard } =>
                "TwoLaneSettings.priority.min_fee_a ("@ + spec_decimal(priority as nat)
                    + ") and standard.min_fee_a ("@ + spec_decimal(standard as nat) + ") must match"@,
            ConfigError::ZeroMultiplierFloorDenominator =>
                "multiplier_floor.denominator must be non-zero"@,
            ConfigError::MultiplierFloorBelowOne { numerator, denominator } =>
                "multiplier_floor must be \u{2265} 1 (got "@ + spec_decimal(numerator as nat) + "/"@
                    + spec_decimal(denominator as nat) + ")"@,
            ConfigError::ZeroPriorityReservation => "priority_reservation_bytes must be non-zero"@,
            ConfigError::MultiplierFloorRatioTooLarge { numerator, denominator } =>
                "TwoLaneSettings.multiplier_floor ratio too large: "@ + spec_decimal(numerator as nat)
                    + "/"@ + spec_decimal(denominator as nat)
                    + " exceeds 2^32 cap; the u128 \u{2192} u64 conversion in the multiplier-floor enforcement would saturate silently"@,
        }
    }

    /// The error's text; see `spec_message`.
    pub fn message(&self) -> (r: String)
        ensures
            r@ == self.spec_message(),
    {
        match self {
            ConfigError::ZeroDenominator => "Multiplier denominator must be non-zero".to_owned(),
            ConfigError::ZeroMinFee => "Eip1559Settings.min_fee_a must be non-zero".to_owned(),
            ConfigError::ZeroTargetDenominator => "Eip1559Settings.target_den must be non-zero".to_owned(),
            ConfigError::TargetNotInUnitInterval { target_num, target_den } => {
                let r = "Eip1559Settings.target_num/target_den must be a fraction in (0, 1); got "
                    .to_owned().concat(decimal_u128(*target_num as u128).as_str()).concat("/").concat(
                    decimal_u128(*target_den as u128).as_str(),
                );
                r
            },
            ConfigError::ZeroMaxChangeDenominator =>
                "Eip1559Settings.max_change_denominator must be non-zero".to_owned(),
            ConfigError::ZeroWindowLength => "Eip1559Settings.window_length must be non-zero".to_owned(),
            ConfigError::ControllerOverflowBudget {
                window_length,
                target_num,
                max_change_denominator,
                product,
            } => {
                let tail = match product {
                    Some(p) => "Some(".to_owned().concat(decimal_u128(*p).as_str()).concat(")"),
                    None => "None".to_owned(),
                };
                let r = "Eip1559Settings: controller intermediates may overflow u128: window_length ("
                    .to_owned().concat(decimal_u128(*window_length as u128).as_str()).concat(
                    ") \u{d7} target_num (",
                ).concat(decimal_u128(*target_num as u128).as_str()).concat(
                    ") \u{d7} max_change_denominator (",
                ).concat(decimal_u128(*max_change_denominator as u128).as_str()).concat(
                    ") must be \u{2264} 2^23 = 8388608; got product ",
                ).concat(tail.as_str());
                r
            },
            ConfigError::MinFeeMismatch { priority, standard } => {
                let r = "TwoLaneSettings.priority.min_fee_a (".to_owned().concat(
                    decimal_u128(*priority as u128).as_str(),
                ).concat(") and standard.min_fee_a (").concat(decimal_u128(*standard as u128).as_str()).concat(
                    ") must match",
                );
                r
            },
            ConfigError::ZeroMultiplierFloorDenominator =>
                "multiplier_floor.denominator must be non-zero".to_owned(),
            ConfigError::MultiplierFloorBelowOne { numerator, denominator } => {
                let r = "multiplier_floor must be \u{2265} 1 (got ".to_owned().concat(
                    decimal_u128(*numerator as u128).as_str(),
                ).concat("/").concat(decimal_u128(*denominator as u128).as_str()).concat(")");
                r
            },
            ConfigError::ZeroPriorityReservation => "priority_reservation_bytes must be non-zero".to_owned(),
            ConfigError::MultiplierFloorRatioTooLarge { numerator, denominator } => {
                let r = "TwoLaneSettings.multiplier_floor ratio too large: ".to_owned().concat(
                    decimal_u128(*numerator as u128).as_str(),
                ).concat("/").concat(decimal_u128(*denominator as u128).as_str()).concat(
                    " exceeds 2^32 cap; the u128 \u{2192} u64 conversion in the multiplier-floor enforcement would saturate silently",
                );
                r
            },
        }
    }
}

/// Rational multiplier `numerator / denominator`.
#[derive(Debug, Copy, Clone, PartialEq, Eq, Structural)]
pub struct Multiplier {
    pub numerator: u64,
    pub denominator: u64,
}

impl Multiplier {
    /// Builds a multiplier; a zero denominator is refused.
    pub fn new(numerator: u64, denominator: u64) -> (r: Result<Multiplier, ConfigError>)
        ensures
            denominator == 0 <==> r is Err,
            denominator == 0 ==> r == Err::<Multiplier, ConfigError>(ConfigError::ZeroDenominator),
            denominator != 0 ==> r == Ok::<Multiplier, ConfigError>(
                Multiplier { numerator, denominator },
            ),
    {
        if denominator == 0 {
            return Err(ConfigError::ZeroDenominator);
        }
        Ok(Multiplier { numerator, denominator })
    }
}

/// Snapshot of chain-derived pricing state for time-series logging.
#[derive(Debug, Clone, PartialEq, Eq, Structural)]
pub struct PricingSnapshot {
    pub standard_quote_per_byte: u64,
    pub priority_quote_per_byte: Option<u64>,
    pub standard_window_util_x_1e9: Option<u64>,
    pub priority_window_util_x_1e9: Option<u64>,
}

/// Read-only view of the canonical chain.
pub trait ChainView {
    /// k-th canonical ancestor of `from`, or `None` past the chain's start.
    fn ancestor(&self, from: BlockId, k: u32) -> Option<BlockId>;

    /// Samples emitted by a canonical block (empty when none are recorded).
    fn samples_in_block(&self, block_id: BlockId) -> &[PricedBlockSample];

    /// Derived quote of a canonical block.
    fn derived_quote(&self, block_id: BlockId) -> Option<PerLaneQuote>;

    /// Window aggregate of a canonical block.
    fn window_aggregate(&self, block_id: BlockId) -> Option<WindowAggregate>;
}

/// The sample that a single-lane backend emits for a block: one standard
/// sample over all of the block's bytes.
pub open spec fn spec_default_samples(
    block_kind: BlockKind,
    breakdown: BlockLaneBreakdown,
) -> Seq<PricedBlockSample> {
    seq![
        PricedBlockSample {
            block_kind,
            controller_lane: Lane::Standard,
            relevant_bytes: crate::arith::spec_sat_add_u64(
                breakdown.priority_paying_bytes,
                breakdown.standard_paying_bytes,
            ),
            relevant_capacity: breakdown.block_capacity,
        },
    ]
}

/// Pure-function transaction-pricing policy.
pub trait PricingBackend {
    /// The child block's quote and window aggregate, as a function of the
    /// parent's quote and aggregate and of the samples entering and leaving
    /// the window.
    fn compute_derived_quote(
        &self,
        parent_quote: PerLaneQuote,
        parent_aggregate: WindowAggregate,
        parent_samples: &[PricedBlockSample],
        evicted_samples: &[PricedBlockSample],
    ) -> (PerLaneQuote, WindowAggregate);

    /// Effective window length used by this backend.
    fn effective_window_length(&self) -> usize;

    /// Cold-start quote for `lane`.
    fn cold_start_quote(&self, lane: Lane) -> u64;

    /// Lane-validity rule for blocks of the given kind.
    fn lane_validity_rule(&self, block_kind: BlockKind) -> (r: LaneValidityRule)
        default_ensures
            r == LaneValidityRule::Unrestricted,
    {
        LaneValidityRule::Unrestricted
    }

    /// Lane-selection order for block packing.
    fn lane_selection_order(&self) -> (r: LaneSelectionOrder)
        default_ensures
            r == LaneSelectionOrder::Fifo,
    {
        LaneSelectionOrder::Fifo
    }

    /// Multiplier floor of two-lane backends; `None` for single-lane ones.
    fn min_priority_premium_multiplier(&self) -> (r: Option<Multiplier>)
        default_ensures
            r is None,
    {
        None
    }

    /// Samples that a priced block emits to the controller(s).
    fn samples_for_block(
        &self,
        block_kind: BlockKind,
        breakdown: &BlockLaneBreakdown,
    ) -> (r: Vec<PricedBlockSample>)
        default_ensures
            r@ == spec_default_samples(block_kind, *breakdown),
    {
        let total_bytes = breakdown.priority_paying_bytes.saturating_add(
            breakdown.standard_paying_bytes,
        );
        vec![PricedBlockSample {
            block_kind,
            controller_lane: Lane::Standard,
            relevant_bytes: total_bytes,
            relevant_capacity: breakdown.block_capacity,
        }]
    }
}

/// Utilisation `num / den` scaled by 10^9, saturating at `u64::MAX`; `None`
/// when `den` is zero.
pub open spec fn spec_util_x_1e9(num: u128, den: u128) -> Option<u64> {
    if den == 0 {
        None
    } else {
        let scaled = crate::arith::spec_sat_mul_u128(num, 1_000_000_000) / den;
        Some(crate::arith::spec_clamp_u64(scaled as int))
    }
}

fn util_x_1e9(num: u128, den: u128) -> (r: Option<u64>)
    ensures
        r == spec_util_x_1e9(num, den),
{
    if den == 0 {
        None
    } else {
        let scaled = crate::arith::sat_mul_u128(num, 1_000_000_000) / den;
        Some(crate::arith::clamp_u128_to_u64(scaled))
    }
}

pub open spec fn spec_snapshot_at(
    derived_quote: PerLaneQuote,
    aggregate: WindowAggregate,
    is_two_lane: bool,
) -> PricingSnapshot {
    PricingSnapshot {
        standard_quote_per_byte: derived_quote.standard,
        priority_quote_per_byte: if is_two_lane {
            Some(derived_quote.priority)
        } else {
            None
        },
        standard_window_util_x_1e9: spec_util_x_1e9(
            aggregate.standard_sum_bytes,
            aggregate.standard_sum_capacity,
        ),
        priority_window_util_x_1e9: if is_two_lane {
            spec_util_x_1e9(aggregate.priority_sum_bytes, aggregate.priority_sum_capacity)
        } else {
            None
        },
    }
}

/// Renders a `PricingSnapshot` from a canonical block's chain-derived
/// state. Single-lane variants leave the priority fields as `None`.
pub fn snapshot_at(
    derived_quote: PerLaneQuote,
    aggregate: WindowAggregate,
    is_two_lane: bool,
) -> (r: PricingSnapshot)
    ensures
        r == spec_snapshot_at(derived_quote, aggregate, is_two_lane),
{
    let standard_util = util_x_1e9(aggregate.standard_sum_bytes, aggregate.standard_sum_capacity);
    if is_two_lane {
        let priority_util = util_x_1e9(
            aggregate.priority_sum_bytes,
            aggregate.priority_sum_capacity,
        );
        PricingSnapshot {
            standard_quote_per_byte: derived_quote.standard,
            priority_quote_per_byte: Some(derived_quote.priority),
            standard_window_util_x_1e9: standard_util,
            priority_window_util_x_1e9: priority_util,
        }
    } else {
        PricingSnapshot {
            standard_quote_per_byte: derived_quote.standard,
            priority_quote_per_byte: None,
            standard_window_util_x_1e9: standard_util,
            priority_window_util_x_1e9: None,
        }
    }
}

} // verus!
