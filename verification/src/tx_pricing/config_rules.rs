//! Validation of a tiered pricing configuration. The configuration holds
//! fractions and ratios; their comparisons arrive here as booleans, and
//! this module decides, in the configuration's fixed order, which rule is
//! the first one broken.

use vstd::prelude::*;
use vstd::string::StringExecFns;

use crate::tx_pricing::TierBlockSelectionPolicy;

verus! {

/// Decimal digit `d` as a character.
pub open spec fn spec_digit(d: nat) -> char {
    if d == 0 {
        '0'
    } else if d == 1 {
        '1'
    } else if d == 2 {
        '2'
    } else if d == 3 {
        '3'
    } else if d == 4 {
        '4'
    } else if d == 5 {
        '5'
    } else if d == 6 {
        '6'
    } else if d == 7 {
        '7'
    } else if d == 8 {
        '8'
    } else {
        '9'
    }
}

/// Decimal representation of `n`, without leading zeros.
pub open spec fn spec_decimal(n: nat) -> Seq<char>
    decreases n,
{
    if n < 10 {
        seq![spec_digit(n)]
    } else {
        spec_decimal(n / 10).push(spec_digit(n % 10))
    }
}

fn digit_str(d: usize) -> (r: &'static str)
    requires
        d < 10,
    ensures
        r@ == seq![spec_digit(d as nat)],
{
    proof {
        reveal_strlit("0");
        reveal_strlit("1");
        reveal_strlit("2");
        reveal_strlit("3");
        reveal_strlit("4");
        reveal_strlit("5");
        reveal_strlit("6");
        reveal_strlit("7");
        reveal_strlit("8");
        reveal_strlit("9");
    }
    match d {
        0 => "0",
        1 => "1",
        2 => "2",
        3 => "3",
        4 => "4",
        5 => "5",
        6 => "6",
        7 => "7",
        8 => "8",
        _ => "9",
    }
}

/// Decimal representation of a `u128`.
pub fn decimal_u128(n: u128) -> (r: String)
    ensures
        r@ == spec_decimal(n as nat),
    decreases n,
{
    if n < 10 {
        digit_str(n as usize).to_owned()
    } else {
        let head = decimal_u128(n / 10);
        let r = head.concat(digit_str((n % 10) as usize));
        assert(r@ =~= spec_decimal(n as nat));
        r
    }
}

/// Decimal representation of `n`.
pub fn decimal(n: usize) -> (r: String)
    ensures
        r@ == spec_decimal(n as nat),
{
    decimal_u128(n as u128)
}


/// Per-band facts of an overflow-retry policy, in band order. The ratio
/// comparisons are made by the caller, against the end of the previous
/// band (0 for the first) with a tolerance of `1e-9`.
#[derive(Debug, Clone, Copy, PartialEq, Eq, Structural)]
pub struct RetryBandChecks {
    /// Both retained-ratio bounds are finite.
    pub ratios_finite: bool,
    /// Both bounds lie in [0, 1].
    pub ratios_in_unit_interval: bool,
    /// The lower bound is below the upper bound.
    pub min_below_max: bool,
    pub max_attempts: u32,
    pub base_delay_slots: u64,
    /// The band starts after the previous band's end (a gap).
    pub starts_after_previous_end: bool,
    /// The band starts before the previous band's end (an overlap).
    pub starts_before_previous_end: bool,
}

/// Facts of an overflow-retry policy.
#[derive(Debug, Clone, PartialEq, Eq)]
pub struct RetryPolicyChecks {
    pub max_delay_slots: u64,
    pub bands: Vec<RetryBandChecks>,
    /// The last band ends at 1 (within the tolerance).
    pub covers_unit_interval: bool,
    /// The last band's upper bound is 1 (within the tolerance).
    pub last_band_ends_at_one: bool,
}

/// A broken rule of an overflow-retry policy.
#[derive(Debug, Clone, Copy, PartialEq, Eq, Structural)]
pub enum RetryPolicyError {
    ZeroMaxDelay,
    NoBands,
    RatiosNotFinite { index: usize },
    RatiosOutOfRange { index: usize },
    RatiosNotIncreasing { index: usize },
    ZeroBaseDelay { index: usize },
    CoverageGap { index: usize },
    Overlap { index: usize },
    IncompleteCoverage,
    OpenEnded,
}

/// The first band rule broken by a band, if any.
pub open spec fn spec_band_error(b: RetryBandChecks, index: usize) -> Option<RetryPolicyError> {
    if !b.ratios_finite {
        Some(RetryPolicyError::RatiosNotFinite { index })
    } else if !b.ratios_in_unit_interval {
        Some(RetryPolicyError::RatiosOutOfRange { index })
    } else if !b.min_below_max {
        Some(RetryPolicyError::RatiosNotIncreasing { index })
    } else if b.max_attempts > 0 && b.base_delay_slots == 0 {
        Some(RetryPolicyError::ZeroBaseDelay { index })
    } else if b.starts_after_previous_end {
        Some(RetryPolicyError::CoverageGap { index })
    } else if b.starts_before_previous_end {
        Some(RetryPolicyError::Overlap { index })
    } else {
        None
    }
}

/// The first rule broken by the first `n` bands, if any.
pub open spec fn spec_first_band_error(bands: Seq<RetryBandChecks>, n: int) -> Option<RetryPolicyError>
    decreases n,
{
    if n <= 0 {
        None
    } else {
        match spec_first_band_error(bands, n - 1) {
            Some(e) => Some(e),
            None => spec_band_error(bands[n - 1], (n - 1) as usize),
        }
    }
}

/// Validity of an overflow-retry policy: a nonzero delay cap, at least one
/// band, every band sound and starting where the previous one ends, and the
/// bands covering [0, 1]. The first broken rule is reported.
pub open spec fn spec_validate_retry_policy(
    max_delay_slots: u64,
    bands: Seq<RetryBandChecks>,
    covers_unit_interval: bool,
    last_band_ends_at_one: bool,
) -> Result<(), RetryPolicyError> {
    if max_delay_slots == 0 {
        Err(RetryPolicyError::ZeroMaxDelay)
    } else if bands.len() == 0 {
        Err(RetryPolicyError::NoBands)
    } else {
        match spec_first_band_error(bands, bands.len() as int) {
            Some(e) => Err(e),
            None => if !covers_unit_interval {
                Err(RetryPolicyError::IncompleteCoverage)
            } else if !last_band_ends_at_one {
                Err(RetryPolicyError::OpenEnded)
            } else {
                Ok(())
            },
        }
    }
}

proof fn lemma_first_band_error_stable(bands: Seq<RetryBandChecks>, k: int, n: int)
    requires
        0 <= k <= n,
        spec_first_band_error(bands, k) is Some,
    ensures
        spec_first_band_error(bands, n) == spec_first_band_error(bands, k),
    decreases n - k,
{
    if n > k {
        lemma_first_band_error_stable(bands, k, n - 1);
    }
}

fn band_error(b: &RetryBandChecks, index: usize) -> (r: Option<RetryPolicyError>)
    ensures
        r == spec_band_error(*b, index),
{
    if !b.ratios_finite {
        Some(RetryPolicyError::RatiosNotFinite { index })
    } else if !b.ratios_in_unit_interval {
        Some(RetryPolicyError::RatiosOutOfRange { index })
    } else if !b.min_below_max {
        Some(RetryPolicyError::RatiosNotIncreasing { index })
    } else if b.max_attempts > 0 && b.base_delay_slots == 0 {
        Some(RetryPolicyError::ZeroBaseDelay { index })
    } else if b.starts_after_previous_end {
        Some(RetryPolicyError::CoverageGap { index })
    } else if b.starts_before_previous_end {
        Some(RetryPolicyError::Overlap { index })
    } else {
        None
    }
}

impl RetryPolicyChecks {
    /// Validates the policy; see `spec_validate_retry_policy`.
    pub fn validate(&self) -> (r: Result<(), RetryPolicyError>)
        ensures
            r == spec_validate_retry_policy(
                self.max_delay_slots,
                self.bands@,
                self.covers_unit_interval,
                self.last_band_ends_at_one,
            ),
    {
        if self.max_delay_slots == 0 {
            return Err(RetryPolicyError::ZeroMaxDelay);
        }
        if self.bands.len() == 0 {
            return Err(RetryPolicyError::NoBands);
        }
        let n = self.bands.len();
        for i in 0..n
            invariant
                n == self.bands@.len(),
                n > 0,
                self.max_delay_slots != 0,
                spec_first_band_error(self.bands@, i as int) is None,
        {
            let e = band_error(&self.bands[i], i);
            if let Some(err) = e {
                proof {
                    lemma_first_band_error_stable(self.bands@, i + 1, n as int);
                }
                return Err(err);
            }
        }
        if !self.covers_unit_interval {
            return Err(RetryPolicyError::IncompleteCoverage);
        }
        if !self.last_band_ends_at_one {
            return Err(RetryPolicyError::OpenEnded);
        }
        Ok(())
    }
}

impl RetryPolicyError {
    /// The error's text.
    pub open spec fn spec_message(self) -> Seq<char> {
        match self {
            RetryPolicyError::ZeroMaxDelay => "overflow_retry_policy.max_delay_slots must be >= 1"@,
            RetryPolicyError::NoBands => "overflow_retry_policy.bands must not be empty"@,
            RetryPolicyError::RatiosNotFinite { index } => "overflow_retry_policy.bands["@ + spec_decimal(index as nat) + "] ratios must be finite"@,
            RetryPolicyError::RatiosOutOfRange { index } => "overflow_retry_policy.bands["@ + spec_decimal(index as nat) + "] ratios must be in [0, 1]"@,
            RetryPolicyError::RatiosNotIncreasing { index } => "overflow_retry_policy.bands["@ + spec_decimal(index as nat) + "] must satisfy min_retained_ratio < max_retained_ratio"@,
            RetryPolicyError::ZeroBaseDelay { index } => "overflow_retry_policy.bands["@ + spec_decimal(index as nat) + "] base_delay_slots must be >= 1 when max_attempts > 0"@,
            RetryPolicyError::CoverageGap { index } => "overflow_retry_policy.bands has a coverage gap before index "@ + spec_decimal(index as nat) + ""@,
            RetryPolicyError::Overlap { index } => "overflow_retry_policy.bands must be sorted and non-overlapping (issue at index "@ + spec_decimal(index as nat) + ")"@,
            RetryPolicyError::IncompleteCoverage => "overflow_retry_policy.bands must fully cover retained ratio range [0, 1]"@,
            RetryPolicyError::OpenEnded => "overflow_retry_policy.bands must end at max_retained_ratio = 1.0"@,
        }
    }

    /// The error's text; see `spec_message`.
    pub fn message(&self) -> (r: String)
        ensures
            r@ == self.spec_message(),
    {
        match self {
            RetryPolicyError::ZeroMaxDelay => "overflow_retry_policy.max_delay_slots must be >= 1".to_owned(),
            RetryPolicyError::NoBands => "overflow_retry_policy.bands must not be empty".to_owned(),
            RetryPolicyError::RatiosNotFinite { index } => "overflow_retry_policy.bands[".to_owned().concat(decimal(*index).as_str()).concat("] ratios must be finite"),
            RetryPolicyError::RatiosOutOfRange { index } => "overflow_retry_policy.bands[".to_owned().concat(decimal(*index).as_str()).concat("] ratios must be in [0, 1]"),
            RetryPolicyError::RatiosNotIncreasing { index } => "overflow_retry_policy.bands[".to_owned().concat(decimal(*index).as_str()).concat("] must satisfy min_retained_ratio < max_retained_ratio"),
            RetryPolicyError::ZeroBaseDelay { index } => "overflow_retry_policy.bands[".to_owned().concat(decimal(*index).as_str()).concat("] base_delay_slots must be >= 1 when max_attempts > 0"),
            RetryPolicyError::CoverageGap { index } => "overflow_retry_policy.bands has a coverage gap before index ".to_owned().concat(decimal(*index).as_str()).concat(""),
            RetryPolicyError::Overlap { index } => "overflow_retry_policy.bands must be sorted and non-overlapping (issue at index ".to_owned().concat(decimal(*index).as_str()).concat(")"),
            RetryPolicyError::IncompleteCoverage => "overflow_retry_policy.bands must fully cover retained ratio range [0, 1]".to_owned(),
            RetryPolicyError::OpenEnded => "overflow_retry_policy.bands must end at max_retained_ratio = 1.0".to_owned(),
        }
    }
}

/// Facts of a tiered configuration. Counts and integer settings are given
/// as they are; each comparison on a fraction or ratio is given as a
/// boolean, per entry where the configuration holds a list.
#[derive(Debug, Clone, PartialEq, Eq)]
pub struct TieredConfigChecks {
    pub max_tiers: usize,
    /// Per fraction of `tier_size_fractions`: it is non-negative.
    pub tier_size_fractions_non_negative: Vec<bool>,
    /// The first `max_tiers` fractions add up to at most `1 + f64::EPSILON`.
    pub tier_size_fractions_sum_within_one: bool,
    pub delay_update_frequency: Option<u64>,
    pub delay_update_period_slots: Option<u64>,
    pub tier_update_frequency: Option<u64>,
    pub tier_update_period_slots: Option<u64>,
    /// `min_delay_ratio >= 1`.
    pub min_delay_ratio_at_least_one: bool,
    /// Per entry of `min_delay_ratios`: it is at least 1.
    pub min_delay_ratios_at_least_one: Vec<bool>,
    /// Per entry of `delay_increase_thresholds`: it is finite and positive.
    pub delay_increase_thresholds_positive: Vec<bool>,
    /// `delay_decrease_prob` lies in [0, 1].
    pub delay_decrease_prob_in_unit_interval: bool,
    pub block_selection_policy: TierBlockSelectionPolicy,
    /// `rb_tier0_reservation_fraction` is finite and in (0, 1].
    pub rb_tier0_reservation_fraction_valid: bool,
    /// `rb_target_utilisation`, when set, is finite and in (0, 1].
    pub rb_target_utilisation_valid: bool,
    pub rb_base_fee_change_denominator: Option<u64>,
    /// `rb_soft_reservation_fraction` is finite and in [0, 1].
    pub rb_soft_reservation_fraction_valid: bool,
    pub eb_total_capacity: Option<u64>,
    pub separate_eb_pool: bool,
    /// `add_tier_fill_rate_threshold` is finite and positive.
    pub add_tier_fill_rate_threshold_valid: bool,
    /// `remove_tier_fill_rate_threshold` is finite and non-negative.
    pub remove_tier_fill_rate_threshold_valid: bool,
    /// The remove threshold is below the add threshold.
    pub remove_threshold_below_add: bool,
    /// `overflow_linear_fill_rate_cap` is finite and non-negative.
    pub overflow_linear_fill_rate_cap_valid: bool,
    /// `dynamic_tier_sizing_alpha` is finite and in [0, 1].
    pub dynamic_tier_sizing_alpha_valid: bool,
    /// `dynamic_tier_sizing_min_fraction` is finite and in [0, 1].
    pub dynamic_tier_sizing_min_fraction_valid: bool,
    /// `lane_selection_backlog_delay_scale` is finite and non-negative.
    pub lane_selection_backlog_delay_scale_valid: bool,
    pub overflow_retry_policy: RetryPolicyChecks,
}

/// A broken rule of a tiered configuration.
#[derive(Debug, Clone, Copy, PartialEq, Eq, Structural)]
pub enum TieredConfigError {
    MaxTiersZero,
    FractionsTooFew,
    FractionNegative,
    FractionsSumAboveOne,
    DelayCadenceDuplicated,
    DelayCadenceMissing,
    ZeroDelayUpdateFrequency,
    ZeroDelayUpdatePeriod,
    TierCadenceDuplicated,
    TierCadenceMissing,
    ZeroTierUpdateFrequency,
    ZeroTierUpdatePeriod,
    MinDelayRatioBelowOne,
    MinDelayRatiosTooFew,
    MinDelayRatiosBelowOne,
    DelayIncreaseThresholdsTooFew,
    DelayIncreaseThresholdsNotPositive,
    DelayDecreaseProbOutOfRange,
    NaiveTwoTierTooFewTiers,
    RbTier0ReservedTooFewTiers,
    RbTier0ReservationFractionInvalid,
    RbTargetUtilisationInvalid,
    ZeroRbBaseFeeChangeDenominator,
    RbSoftReservationFractionInvalid,
    ContinuousWithoutSeparateEbPool,
    AddTierFillRateThresholdInvalid,
    RemoveTierFillRateThresholdInvalid,
    RemoveThresholdNotBelowAdd,
    OverflowLinearFillRateCapInvalid,
    DynamicTierSizingAlphaInvalid,
    DynamicTierSizingMinFractionInvalid,
    LaneSelectionBacklogDelayScaleInvalid,
    OverflowRetryPolicy(RetryPolicyError),
}

/// The first `n` entries of `v` (all of them when there are fewer) hold.
pub open spec fn spec_prefix_holds(v: Seq<bool>, n: int) -> bool {
    forall|i: int| 0 <= i < v.len() && i < n ==> #[trigger] v[i]
}

fn prefix_holds(v: &Vec<bool>, n: usize) -> (r: bool)
    ensures
        r == spec_prefix_holds(v@, n as int),
{
    let len = v.len();
    for i in 0..len
        invariant
            len == v@.len(),
            spec_prefix_holds(v@, i as int) || i as int > n,
            forall|j: int| 0 <= j < i && j < n ==> #[trigger] v@[j],
    {
        if i < n && !v[i] {
            return false;
        }
    }
    true
}

/// A cadence is set exactly one way, and to a nonzero value.
pub open spec fn spec_cadence_error(
    frequency: Option<u64>,
    period_slots: Option<u64>,
    duplicated: TieredConfigError,
    missing: TieredConfigError,
    zero_frequency: TieredConfigError,
    zero_period: TieredConfigError,
) -> Option<TieredConfigError> {
    match (frequency, period_slots) {
        (Some(_), Some(_)) => Some(duplicated),
        (None, None) => Some(missing),
        (Some(f), None) => if f == 0 {
            Some(zero_frequency)
        } else {
            None
        },
        (None, Some(p)) => if p == 0 {
            Some(zero_period)
        } else {
            None
        },
    }
}

fn cadence_error(
    frequency: Option<u64>,
    period_slots: Option<u64>,
    duplicated: TieredConfigError,
    missing: TieredConfigError,
    zero_frequency: TieredConfigError,
    zero_period: TieredConfigError,
) -> (r: Option<TieredConfigError>)
    ensures
        r == spec_cadence_error(
            frequency,
            period_slots,
            duplicated,
            missing,
            zero_frequency,
            zero_period,
        ),
{
    match (frequency, period_slots) {
        (Some(_), Some(_)) => Some(duplicated),
        (None, None) => Some(missing),
        (Some(f), None) => if f == 0 {
            Some(zero_frequency)
        } else {
            None
        },
        (None, Some(p)) => if p == 0 {
            Some(zero_period)
        } else {
            None
        },
    }
}

/// Validity of a tiered configuration, rule by rule in a fixed order; the
/// first broken rule is reported. Lists indexed by tier boundary are
/// checked on their first `max_tiers - 1` entries, and must have that many
/// when they are given at all.
pub open spec fn spec_validate_tiered_config(c: TieredConfigChecks) -> Result<(), TieredConfigError> {
    let boundary_count = c.max_tiers - 1;
    let continuous = c.block_selection_policy == TierBlockSelectionPolicy::ContinuousRbEb
        || c.block_selection_policy == TierBlockSelectionPolicy::ContinuousRbEbFallback;
    if c.max_tiers == 0 {
        Err(TieredConfigError::MaxTiersZero)
    } else if c.tier_size_fractions_non_negative@.len() < c.max_tiers {
        Err(TieredConfigError::FractionsTooFew)
    } else if !spec_prefix_holds(c.tier_size_fractions_non_negative@, c.max_tiers as int) {
        Err(TieredConfigError::FractionNegative)
    } else if !c.tier_size_fractions_sum_within_one {
        Err(TieredConfigError::FractionsSumAboveOne)
    } else if spec_cadence_error(
        c.delay_update_frequency,
        c.delay_update_period_slots,
        TieredConfigError::DelayCadenceDuplicated,
        TieredConfigError::DelayCadenceMissing,
        TieredConfigError::ZeroDelayUpdateFrequency,
        TieredConfigError::ZeroDelayUpdatePeriod,
    ) is Some {
        Err(
            spec_cadence_error(
                c.delay_update_frequency,
                c.delay_update_period_slots,
                TieredConfigError::DelayCadenceDuplicated,
                TieredConfigError::DelayCadenceMissing,
                TieredConfigError::ZeroDelayUpdateFrequency,
                TieredConfigError::ZeroDelayUpdatePeriod,
            )->0,
        )
    } else if spec_cadence_error(
        c.tier_update_frequency,
        c.tier_update_period_slots,
        TieredConfigError::TierCadenceDuplicated,
        TieredConfigError::TierCadenceMissing,
        TieredConfigError::ZeroTierUpdateFrequency,
        TieredConfigError::ZeroTierUpdatePeriod,
    ) is Some {
        Err(
            spec_cadence_error(
                c.tier_update_frequency,
                c.tier_update_period_slots,
                TieredConfigError::TierCadenceDuplicated,
                TieredConfigError::TierCadenceMissing,
                TieredConfigError::ZeroTierUpdateFrequency,
                TieredConfigError::ZeroTierUpdatePeriod,
            )->0,
        )
    } else if !c.min_delay_ratio_at_least_one {
        Err(TieredConfigError::MinDelayRatioBelowOne)
    } else if c.min_delay_ratios_at_least_one@.len() > 0 && c.min_delay_ratios_at_least_one@.len()
        < boundary_count {
        Err(TieredConfigError::MinDelayRatiosTooFew)
    } else if !spec_prefix_holds(c.min_delay_ratios_at_least_one@, boundary_count) {
        Err(TieredConfigError::MinDelayRatiosBelowOne)
    } else if c.delay_increase_thresholds_positive@.len() > 0
        && c.delay_increase_thresholds_positive@.len() < boundary_count {
        Err(TieredConfigError::DelayIncreaseThresholdsTooFew)
    } else if !spec_prefix_holds(c.delay_increase_thresholds_positive@, boundary_count) {
        Err(TieredConfigError::DelayIncreaseThresholdsNotPositive)
    } else if !c.delay_decrease_prob_in_unit_interval {
        Err(TieredConfigError::DelayDecreaseProbOutOfRange)
    } else if c.block_selection_policy == TierBlockSelectionPolicy::NaiveRbEbTwoTier && c.max_tiers
        < 2 {
        Err(TieredConfigError::NaiveTwoTierTooFewTiers)
    } else if c.block_selection_policy == TierBlockSelectionPolicy::RbTier0Reserved && c.max_tiers
        < 2 {
        Err(TieredConfigError::RbTier0ReservedTooFewTiers)
    } else if c.block_selection_policy == TierBlockSelectionPolicy::RbTier0Reserved
        && !c.rb_tier0_reservation_fraction_valid {
        Err(TieredConfigError::RbTier0ReservationFractionInvalid)
    } else if !c.rb_target_utilisation_valid {
        Err(TieredConfigError::RbTargetUtilisationInvalid)
    } else if c.rb_base_fee_change_denominator == Some(0u64) {
        Err(TieredConfigError::ZeroRbBaseFeeChangeDenominator)
    } else if !c.rb_soft_reservation_fraction_valid {
        Err(TieredConfigError::RbSoftReservationFractionInvalid)
    } else if continuous && c.eb_total_capacity is None && !c.separate_eb_pool {
        Err(TieredConfigError::ContinuousWithoutSeparateEbPool)
    } else if !c.add_tier_fill_rate_threshold_valid {
        Err(TieredConfigError::AddTierFillRateThresholdInvalid)
    } else if !c.remove_tier_fill_rate_threshold_valid {
        Err(TieredConfigError::RemoveTierFillRateThresholdInvalid)
    } else if !c.remove_threshold_below_add {
        Err(TieredConfigError::RemoveThresholdNotBelowAdd)
    } else if !c.overflow_linear_fill_rate_cap_valid {
        Err(TieredConfigError::OverflowLinearFillRateCapInvalid)
    } else if !c.dynamic_tier_sizing_alpha_valid {
        Err(TieredConfigError::DynamicTierSizingAlphaInvalid)
    } else if !c.dynamic_tier_sizing_min_fraction_valid {
        Err(TieredConfigError::DynamicTierSizingMinFractionInvalid)
    } else if !c.lane_selection_backlog_delay_scale_valid {
        Err(TieredConfigError::LaneSelectionBacklogDelayScaleInvalid)
    } else {
        match spec_validate_retry_policy(
            c.overflow_retry_policy.max_delay_slots,
            c.overflow_retry_policy.bands@,
            c.overflow_retry_policy.covers_unit_interval,
            c.overflow_retry_policy.last_band_ends_at_one,
        ) {
            Ok(()) => Ok(()),
            Err(e) => Err(TieredConfigError::OverflowRetryPolicy(e)),
        }
    }
}

impl TieredConfigChecks {
    /// Validates the configuration; see `spec_validate_tiered_config`.
    pub fn validate(&self) -> (r: Result<(), TieredConfigError>)
        ensures
            r == spec_validate_tiered_config(*self),
    {
        if self.max_tiers == 0 {
            return Err(TieredConfigError::MaxTiersZero);
        }
        let boundary_count = self.max_tiers - 1;
        if self.tier_size_fractions_non_negative.len() < self.max_tiers {
            return Err(TieredConfigError::FractionsTooFew);
        }
        if !prefix_holds(&self.tier_size_fractions_non_negative, self.max_tiers) {
            return Err(TieredConfigError::FractionNegative);
        }
        if !self.tier_size_fractions_sum_within_one {
            return Err(TieredConfigError::FractionsSumAboveOne);
        }
        if let Some(e) = cadence_error(
            self.delay_update_frequency,
            self.delay_update_period_slots,
            TieredConfigError::DelayCadenceDuplicated,
            TieredConfigError::DelayCadenceMissing,
            TieredConfigError::ZeroDelayUpdateFrequency,
            TieredConfigError::ZeroDelayUpdatePeriod,
        ) {
            return Err(e);
        }
        if let Some(e) = cadence_error(
            self.tier_update_frequency,
            self.tier_update_period_slots,
            TieredConfigError::TierCadenceDuplicated,
            TieredConfigError::TierCadenceMissing,
            TieredConfigError::ZeroTierUpdateFrequency,
            TieredConfigError::ZeroTierUpdatePeriod,
        ) {
            return Err(e);
        }
        if !self.min_delay_ratio_at_least_one {
            return Err(TieredConfigError::MinDelayRatioBelowOne);
        }
        let ratios_len = self.min_delay_ratios_at_least_one.len();
        if ratios_len > 0 && ratios_len < boundary_count {
            return Err(TieredConfigError::MinDelayRatiosTooFew);
        }
        if !prefix_holds(&self.min_delay_ratios_at_least_one, boundary_count) {
            return Err(TieredConfigError::MinDelayRatiosBelowOne);
        }
        let thresholds_len = self.delay_increase_thresholds_positive.len();
        if thresholds_len > 0 && thresholds_len < boundary_count {
            return Err(TieredConfigError::DelayIncreaseThresholdsTooFew);
        }
        if !prefix_holds(&self.delay_increase_thresholds_positive, boundary_count) {
            return Err(TieredConfigError::DelayIncreaseThresholdsNotPositive);
        }
        if !self.delay_decrease_prob_in_unit_interval {
            return Err(TieredConfigError::DelayDecreaseProbOutOfRange);
        }
        let (naive, reserved, continuous) = match self.block_selection_policy {
            TierBlockSelectionPolicy::NaiveRbEbTwoTier => (true, false, false),
            TierBlockSelectionPolicy::RbTier0Reserved => (false, true, false),
            TierBlockSelectionPolicy::ContinuousRbEb => (false, false, true),
            TierBlockSelectionPolicy::ContinuousRbEbFallback => (false, false, true),
            TierBlockSelectionPolicy::Shared => (false, false, false),
        };
        if naive && self.max_tiers < 2 {
            return Err(TieredConfigError::NaiveTwoTierTooFewTiers);
        }
        if reserved && self.max_tiers < 2 {
            return Err(TieredConfigError::RbTier0ReservedTooFewTiers);
        }
        if reserved && !self.rb_tier0_reservation_fraction_valid {
            return Err(TieredConfigError::RbTier0ReservationFractionInvalid);
        }
        if !self.rb_target_utilisation_valid {
            return Err(TieredConfigError::RbTargetUtilisationInvalid);
        }
        if let Some(d) = self.rb_base_fee_change_denominator {
            if d == 0 {
                return Err(TieredConfigError::ZeroRbBaseFeeChangeDenominator);
            }
        }
        if !self.rb_soft_reservation_fraction_valid {
            return Err(TieredConfigError::RbSoftReservationFractionInvalid);
        }
        if continuous && self.eb_total_capacity.is_none() && !self.separate_eb_pool {
            return Err(TieredConfigError::ContinuousWithoutSeparateEbPool);
        }
        if !self.add_tier_fill_rate_threshold_valid {
            return Err(TieredConfigError::AddTierFillRateThresholdInvalid);
        }
        if !self.remove_tier_fill_rate_threshold_valid {
            return Err(TieredConfigError::RemoveTierFillRateThresholdInvalid);
        }
        if !self.remove_threshold_below_add {
            return Err(TieredConfigError::RemoveThresholdNotBelowAdd);
        }
        if !self.overflow_linear_fill_rate_cap_valid {
            return Err(TieredConfigError::OverflowLinearFillRateCapInvalid);
        }
        if !self.dynamic_tier_sizing_alpha_valid {
            return Err(TieredConfigError::DynamicTierSizingAlphaInvalid);
        }
        if !self.dynamic_tier_sizing_min_fraction_valid {
            return Err(TieredConfigError::DynamicTierSizingMinFractionInvalid);
        }
        if !self.lane_selection_backlog_delay_scale_valid {
            return Err(TieredConfigError::LaneSelectionBacklogDelayScaleInvalid);
        }
        match self.overflow_retry_policy.validate() {
            Ok(()) => Ok(()),
            Err(e) => Err(TieredConfigError::OverflowRetryPolicy(e)),
        }
    }
}

impl TieredConfigError {
    /// The error's text.
    pub open spec fn spec_message(self) -> Seq<char> {
        match self {
            TieredConfigError::MaxTiersZero => "max_tiers must be at least 1"@,
            TieredConfigError::FractionsTooFew => "tier_size_fractions must have at least max_tiers entries"@,
            TieredConfigError::FractionNegative => "tier_size_fractions entries must be non-negative"@,
            TieredConfigError::FractionsSumAboveOne => "tier_size_fractions sum must be <= 1.0"@,
            TieredConfigError::DelayCadenceDuplicated => "delay cadence duplicated: set only one of delay_update_frequency or delay_update_period_slots"@,
            TieredConfigError::DelayCadenceMissing => "delay cadence missing: set one of delay_update_frequency or delay_update_period_slots"@,
            TieredConfigError::ZeroDelayUpdateFrequency => "delay_update_frequency must be >= 1 when set"@,
            TieredConfigError::ZeroDelayUpdatePeriod => "delay_update_period_slots must be >= 1 when set"@,
            TieredConfigError::TierCadenceDuplicated => "tier cadence duplicated: set only one of tier_update_frequency or tier_update_period_slots"@,
            TieredConfigError::TierCadenceMissing => "tier cadence missing: set one of tier_update_frequency or tier_update_period_slots"@,
            TieredConfigError::ZeroTierUpdateFrequency => "tier_update_frequency must be >= 1 when set"@,
            TieredConfigError::ZeroTierUpdatePeriod => "tier_update_period_slots must be >= 1 when set"@,
            TieredConfigError::MinDelayRatioBelowOne => "min_delay_ratio must be >= 1.0"@,
            TieredConfigError::MinDelayRatiosTooFew => "min_delay_ratios must have at least max_tiers - 1 entries when provided"@,
            TieredConfigError::MinDelayRatiosBelowOne => "min_delay_ratios entries must be >= 1.0"@,
            TieredConfigError::DelayIncreaseThresholdsTooFew => "delay_increase_thresholds must have at least max_tiers - 1 entries when provided"@,
            TieredConfigError::DelayIncreaseThresholdsNotPositive => "delay_increase_thresholds entries must be finite and > 0"@,
            TieredConfigError::DelayDecreaseProbOutOfRange => "delay_decrease_prob must be between 0 and 1"@,
            TieredConfigError::NaiveTwoTierTooFewTiers => "naive_rb_eb_two_tier requires max_tiers >= 2"@,
            TieredConfigError::RbTier0ReservedTooFewTiers => "rb_tier0_reserved requires max_tiers >= 2"@,
            TieredConfigError::RbTier0ReservationFractionInvalid => "rb_tier0_reservation_fraction must be finite and in (0, 1]"@,
            TieredConfigError::RbTargetUtilisationInvalid => "rb_target_utilisation must be finite and in (0, 1]"@,
            TieredConfigError::ZeroRbBaseFeeChangeDenominator => "rb_base_fee_change_denominator must be >= 1"@,
            TieredConfigError::RbSoftReservationFractionInvalid => "rb_soft_reservation_fraction must be finite and in [0, 1]"@,
            TieredConfigError::ContinuousWithoutSeparateEbPool => "continuous_rb_eb requires separate_eb_pool=true (or legacy eb_total_capacity)"@,
            TieredConfigError::AddTierFillRateThresholdInvalid => "add_tier_fill_rate_threshold must be finite and > 0"@,
            TieredConfigError::RemoveTierFillRateThresholdInvalid => "remove_tier_fill_rate_threshold must be finite and >= 0"@,
            TieredConfigError::RemoveThresholdNotBelowAdd => "remove_tier_fill_rate_threshold must be < add_tier_fill_rate_threshold"@,
            TieredConfigError::OverflowLinearFillRateCapInvalid => "overflow_linear_fill_rate_cap must be finite and >= 0"@,
            TieredConfigError::DynamicTierSizingAlphaInvalid => "dynamic_tier_sizing_alpha must be finite and in [0, 1]"@,
            TieredConfigError::DynamicTierSizingMinFractionInvalid => "dynamic_tier_sizing_min_fraction must be finite and in [0, 1]"@,
            TieredConfigError::LaneSelectionBacklogDelayScaleInvalid => "lane_selection_backlog_delay_scale must be finite and >= 0"@,
            TieredConfigError::OverflowRetryPolicy(e) => e.spec_message(),
        }
    }

    /// The error's text; see `spec_message`.
    pub fn message(&self) -> (r: String)
        ensures
            r@ == self.spec_message(),
    {
        match self {
            TieredConfigError::MaxTiersZero => "max_tiers must be at least 1".to_owned(),
            TieredConfigError::FractionsTooFew => "tier_size_fractions must have at least max_tiers entries".to_owned(),
            TieredConfigError::FractionNegative => "tier_size_fractions entries must be non-negative".to_owned(),
            TieredConfigError::FractionsSumAboveOne => "tier_size_fractions sum must be <= 1.0".to_owned(),
            TieredConfigError::DelayCadenceDuplicated => "delay cadence duplicated: set only one of delay_update_frequency or delay_update_period_slots".to_owned(),
            TieredConfigError::DelayCadenceMissing => "delay cadence missing: set one of delay_update_frequency or delay_update_period_slots".to_owned(),
            TieredConfigError::ZeroDelayUpdateFrequency => "delay_update_frequency must be >= 1 when set".to_owned(),
            TieredConfigError::ZeroDelayUpdatePeriod => "delay_update_period_slots must be >= 1 when set".to_owned(),
            TieredConfigError::TierCadenceDuplicated => "tier cadence duplicated: set only one of tier_update_frequency or tier_update_period_slots".to_owned(),
            TieredConfigError::TierCadenceMissing => "tier cadence missing: set one of tier_update_frequency or tier_update_period_slots".to_owned(),
            TieredConfigError::ZeroTierUpdateFrequency => "tier_update_frequency must be >= 1 when set".to_owned(),
            TieredConfigError::ZeroTierUpdatePeriod => "tier_update_period_slots must be >= 1 when set".to_owned(),
            TieredConfigError::MinDelayRatioBelowOne => "min_delay_ratio must be >= 1.0".to_owned(),
            TieredConfigError::MinDelayRatiosTooFew => "min_delay_ratios must have at least max_tiers - 1 entries when provided".to_owned(),
            TieredConfigError::MinDelayRatiosBelowOne => "min_delay_ratios entries must be >= 1.0".to_owned(),
            TieredConfigError::DelayIncreaseThresholdsTooFew => "delay_increase_thresholds must have at least max_tiers - 1 entries when provided".to_owned(),
            TieredConfigError::DelayIncreaseThresholdsNotPositive => "delay_increase_thresholds entries must be finite and > 0".to_owned(),
            TieredConfigError::DelayDecreaseProbOutOfRange => "delay_decrease_prob must be between 0 and 1".to_owned(),
            TieredConfigError::NaiveTwoTierTooFewTiers => "naive_rb_eb_two_tier requires max_tiers >= 2".to_owned(),
            TieredConfigError::RbTier0ReservedTooFewTiers => "rb_tier0_reserved requires max_tiers >= 2".to_owned(),
            TieredConfigError::RbTier0ReservationFractionInvalid => "rb_tier0_reservation_fraction must be finite and in (0, 1]".to_owned(),
            TieredConfigError::RbTargetUtilisationInvalid => "rb_target_utilisation must be finite and in (0, 1]".to_owned(),
            TieredConfigError::ZeroRbBaseFeeChangeDenominator => "rb_base_fee_change_denominator must be >= 1".to_owned(),
            TieredConfigError::RbSoftReservationFractionInvalid => "rb_soft_reservation_fraction must be finite and in [0, 1]".to_owned(),
            TieredConfigError::ContinuousWithoutSeparateEbPool => "continuous_rb_eb requires separate_eb_pool=true (or legacy eb_total_capacity)".to_owned(),
            TieredConfigError::AddTierFillRateThresholdInvalid => "add_tier_fill_rate_threshold must be finite and > 0".to_owned(),
            TieredConfigError::RemoveTierFillRateThresholdInvalid => "remove_tier_fill_rate_threshold must be finite and >= 0".to_owned(),
            TieredConfigError::RemoveThresholdNotBelowAdd => "remove_tier_fill_rate_threshold must be < add_tier_fill_rate_threshold".to_owned(),
            TieredConfigError::OverflowLinearFillRateCapInvalid => "overflow_linear_fill_rate_cap must be finite and >= 0".to_owned(),
            TieredConfigError::DynamicTierSizingAlphaInvalid => "dynamic_tier_sizing_alpha must be finite and in [0, 1]".to_owned(),
            TieredConfigError::DynamicTierSizingMinFractionInvalid => "dynamic_tier_sizing_min_fraction must be finite and in [0, 1]".to_owned(),
            TieredConfigError::LaneSelectionBacklogDelayScaleInvalid => "lane_selection_backlog_delay_scale must be finite and >= 0".to_owned(),
            TieredConfigError::OverflowRetryPolicy(e) => e.message(),
        }
    }
}


/// Facts of a priority-lane market configuration; the fraction-valued
/// settings arrive as the outcome of their comparisons.
#[derive(Debug, Clone, Copy, PartialEq, Eq, Structural)]
pub struct PriorityLaneConfigChecks {
    pub max_change_denominator: u64,
    /// `target_utilisation` is finite and positive.
    pub target_utilisation_valid: bool,
    /// `priority_fee_multiplier` is finite and at least 1.
    pub priority_fee_multiplier_valid: bool,
    /// `priority_capacity_fraction` is finite and in (0, 1].
    pub priority_capacity_fraction_valid: bool,
    pub priority_delay: u64,
    pub normal_delay: u64,
}

/// A broken rule of a priority-lane market configuration.
#[derive(Debug, Clone, Copy, PartialEq, Eq, Structural)]
pub enum PriorityLaneConfigError {
    ZeroMaxChangeDenominator,
    TargetUtilisationInvalid,
    PriorityFeeMultiplierInvalid,
    PriorityCapacityFractionInvalid,
    PriorityDelayNotBelowNormal,
}

/// Validity of a priority-lane configuration, rule by rule in a fixed
/// order; the priority lane must be strictly faster than the normal lane.
pub open spec fn spec_validate_priority_lane_config(c: PriorityLaneConfigChecks) -> Result<(), PriorityLaneConfigError> {
    if c.max_change_denominator == 0 {
        Err(PriorityLaneConfigError::ZeroMaxChangeDenominator)
    } else if !c.target_utilisation_valid {
        Err(PriorityLaneConfigError::TargetUtilisationInvalid)
    } else if !c.priority_fee_multiplier_valid {
        Err(PriorityLaneConfigError::PriorityFeeMultiplierInvalid)
    } else if !c.priority_capacity_fraction_valid {
        Err(PriorityLaneConfigError::PriorityCapacityFractionInvalid)
    } else if c.priority_delay >= c.normal_delay {
        Err(PriorityLaneConfigError::PriorityDelayNotBelowNormal)
    } else {
        Ok(())
    }
}

impl PriorityLaneConfigChecks {
    /// Validates the configuration; see `spec_validate_priority_lane_config`.
    pub fn validate(&self) -> (r: Result<(), PriorityLaneConfigError>)
        ensures
            r == spec_validate_priority_lane_config(*self),
    {
        if self.max_change_denominator == 0 {
            Err(PriorityLaneConfigError::ZeroMaxChangeDenominator)
        } else if !self.target_utilisation_valid {
            Err(PriorityLaneConfigError::TargetUtilisationInvalid)
        } else if !self.priority_fee_multiplier_valid {
            Err(PriorityLaneConfigError::PriorityFeeMultiplierInvalid)
        } else if !self.priority_capacity_fraction_valid {
            Err(PriorityLaneConfigError::PriorityCapacityFractionInvalid)
        } else if self.priority_delay >= self.normal_delay {
            Err(PriorityLaneConfigError::PriorityDelayNotBelowNormal)
        } else {
            Ok(())
        }
    }
}

impl PriorityLaneConfigError {
    /// The error's text.
    pub open spec fn spec_message(self) -> Seq<char> {
        match self {
            PriorityLaneConfigError::ZeroMaxChangeDenominator => "max_change_denominator must be >= 1"@,
            PriorityLaneConfigError::TargetUtilisationInvalid => "target_utilisation must be finite and > 0"@,
            PriorityLaneConfigError::PriorityFeeMultiplierInvalid => "priority_fee_multiplier must be finite and >= 1"@,
            PriorityLaneConfigError::PriorityCapacityFractionInvalid => "priority_capacity_fraction must be finite and in (0, 1]"@,
            PriorityLaneConfigError::PriorityDelayNotBelowNormal => "priority_delay must be lower than normal_delay"@,
        }
    }

    /// The error's text; see `spec_message`.
    pub fn message(&self) -> (r: String)
        ensures
            r@ == self.spec_message(),
    {
        match self {
            PriorityLaneConfigError::ZeroMaxChangeDenominator => "max_change_denominator must be >= 1".to_owned(),
            PriorityLaneConfigError::TargetUtilisationInvalid => "target_utilisation must be finite and > 0".to_owned(),
            PriorityLaneConfigError::PriorityFeeMultiplierInvalid => "priority_fee_multiplier must be finite and >= 1".to_owned(),
            PriorityLaneConfigError::PriorityCapacityFractionInvalid => "priority_capacity_fraction must be finite and in (0, 1]".to_owned(),
            PriorityLaneConfigError::PriorityDelayNotBelowNormal => "priority_delay must be lower than normal_delay".to_owned(),
        }
    }
}

} // verus!
