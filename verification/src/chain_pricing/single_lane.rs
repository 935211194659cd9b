//! Single-lane chain-derived backends.
//!
//! - `BaselinePricing`: flat fee, `quote_per_byte = minFeeA`.
//! - `Eip1559Pricing`: one EIP-1559 controller fed by the capacity-weighted
//!   window aggregate carried on the chain. The update rule is
//!   `c <- c * (1 + clamp((util - target) / (target * D), +-1/D))`, applied
//!   directly to the integer quote with ceiling rounding, and floored at
//!   `minFeeA`.

use vstd::prelude::*;

use crate::arith::{
    clamp_u128_to_u64, sat_mul_u128, spec_clamp_u64, spec_sat_add_u128, spec_sat_mul_u128,
    spec_sat_sub_u128,
};
use crate::chain_pricing::window::{spec_add_all, spec_sub_all, update_aggregate};
use crate::chain_pricing::{
    BlockKind, ConfigError, Lane, LaneSelectionOrder, LaneValidityRule, PricedBlockSample,
    PricingBackend,
};
use crate::model::{PerLaneQuote, WindowAggregate};

verus! {

/// Flat-fee backend: the quote is always `min_fee_a`.
#[derive(Debug, Clone)]
pub struct BaselinePricing {
    min_fee_a: u64,
}

impl BaselinePricing {
    pub closed spec fn spec_min_fee_a(&self) -> u64 {
        self.min_fee_a
    }

    /// A flat-fee backend quoting `max(min_fee_a, 1)`.
    pub fn new(min_fee_a: u64) -> (r: BaselinePricing)
        ensures
            r.spec_min_fee_a() == if min_fee_a == 0 {
                1
            } else {
                min_fee_a
            },
    {
        BaselinePricing { min_fee_a: if min_fee_a == 0 {
            1
        } else {
            min_fee_a
        } }
    }

    /// The era's minimum fee per byte.
    pub fn min_fee_a(&self) -> (r: u64)
        ensures
            r == self.spec_min_fee_a(),
    {
        self.min_fee_a
    }
}

impl PricingBackend for BaselinePricing {
    /// Ignores its inputs: the child quote is `min_fee_a` on both lanes and
    /// the aggregate is empty.
    fn compute_derived_quote(
        &self,
        parent_quote: PerLaneQuote,
        parent_aggregate: WindowAggregate,
        parent_samples: &[PricedBlockSample],
        evicted_samples: &[PricedBlockSample],
    ) -> (r: (PerLaneQuote, WindowAggregate))
        ensures
            r.0.standard == self.spec_min_fee_a(),
            r.0.priority == self.spec_min_fee_a(),
            r.1 == WindowAggregate::spec_zero(),
    {
        (PerLaneQuote::flat(self.min_fee_a), WindowAggregate::zero())
    }

    /// The baseline has no window.
    fn effective_window_length(&self) -> (r: usize)
        ensures
            r == usize::MAX,
    {
        usize::MAX
    }

    fn cold_start_quote(&self, lane: Lane) -> (r: u64)
        ensures
            r == self.spec_min_fee_a(),
    {
        self.min_fee_a
    }

    fn lane_validity_rule(&self, block_kind: BlockKind) -> (r: LaneValidityRule)
        ensures
            r == LaneValidityRule::Unrestricted,
    {
        LaneValidityRule::Unrestricted
    }

    fn lane_selection_order(&self) -> (r: LaneSelectionOrder)
        ensures
            r == LaneSelectionOrder::Fifo,
    {
        LaneSelectionOrder::Fifo
    }
}

/// Settings for a single EIP-1559 controller: target utilisation
/// `target_num / target_den`, per-step bound `+-1/D` with
/// `D = max_change_denominator`, and the window length.
#[derive(Debug, Clone, Copy, PartialEq, Eq, Structural)]
pub struct Eip1559Settings {
    pub min_fee_a: u64,
    pub initial_quote_per_byte: u64,
    pub target_num: u64,
    pub target_den: u64,
    pub max_change_denominator: u64,
    pub window_length: usize,
}

/// `2^23`: bound on `window_length * target_num * max_change_denominator`
/// that keeps every controller intermediate inside `u128` for samples of
/// up to `2^40` bytes.
pub open spec fn controller_budget() -> int {
    0x80_0000
}

impl Eip1559Settings {
    /// `window_length * target_num * max_change_denominator`, where it fits
    /// in `u128`.
    pub open spec fn spec_controller_product(&self) -> Option<u128> {
        let p = self.window_length * self.target_num * self.max_change_denominator;
        if p <= u128::MAX {
            Some(p as u128)
        } else {
            None
        }
    }

    /// The outcome of `validate`, check by check in order.
    pub open spec fn spec_validate(&self) -> Result<(), ConfigError> {
        if self.min_fee_a == 0 {
            Err(ConfigError::ZeroMinFee)
        } else if self.target_den == 0 {
            Err(ConfigError::ZeroTargetDenominator)
        } else if self.target_num == 0 || self.target_num >= self.target_den {
            Err(
                ConfigError::TargetNotInUnitInterval {
                    target_num: self.target_num,
                    target_den: self.target_den,
                },
            )
        } else if self.max_change_denominator == 0 {
            Err(ConfigError::ZeroMaxChangeDenominator)
        } else if self.window_length == 0 {
            Err(ConfigError::ZeroWindowLength)
        } else if self.window_length * self.target_num * self.max_change_denominator
            > controller_budget() {
            Err(
                ConfigError::ControllerOverflowBudget {
                    window_length: self.window_length,
                    target_num: self.target_num,
                    max_change_denominator: self.max_change_denominator,
                    product: self.spec_controller_product(),
                },
            )
        } else {
            Ok(())
        }
    }

    /// Checks the settings; see `spec_validate`.
    pub fn validate(&self) -> (r: Result<(), ConfigError>)
        ensures
            r == self.spec_validate(),
    {
        if self.min_fee_a == 0 {
            return Err(ConfigError::ZeroMinFee);
        }
        if self.target_den == 0 {
            return Err(ConfigError::ZeroTargetDenominator);
        }
        if self.target_num == 0 || self.target_num >= self.target_den {
            return Err(
                ConfigError::TargetNotInUnitInterval {
                    target_num: self.target_num,
                    target_den: self.target_den,
                },
            );
        }
        if self.max_change_denominator == 0 {
            return Err(ConfigError::ZeroMaxChangeDenominator);
        }
        if self.window_length == 0 {
            return Err(ConfigError::ZeroWindowLength);
        }
        let budget: u128 = 0x80_0000;
        let wl = self.window_length as u128;
        let tn = self.target_num as u128;
        let d = self.max_change_denominator as u128;
        assert(wl * tn <= u128::MAX) by (nonlinear_arith)
            requires
                wl <= u64::MAX,
                tn <= u64::MAX,
        ;
        let first = wl * tn;
        let product = first.checked_mul(d);
        let fits = match product {
            Some(p) => p <= budget,
            None => false,
        };
        if !fits {
            return Err(
                ConfigError::ControllerOverflowBudget {
                    window_length: self.window_length,
                    target_num: self.target_num,
                    max_change_denominator: self.max_change_denominator,
                    product,
                },
            );
        }
        Ok(())
    }
}

/// Single EIP-1559 controller; a settings carrier whose settings validate.
#[derive(Debug)]
pub struct Eip1559Pricing {
    settings: Eip1559Settings,
}

impl Eip1559Pricing {
    #[verifier::type_invariant]
    spec fn wf(self) -> bool {
        self.settings.spec_validate() is Ok
    }

    pub closed spec fn spec_settings(&self) -> Eip1559Settings {
        self.settings
    }

    /// Builds the backend; fails with the first validation error.
    pub fn new(settings: Eip1559Settings) -> (r: Result<Eip1559Pricing, ConfigError>)
        ensures
            match settings.spec_validate() {
                Ok(_) => r matches Ok(p) && p.spec_settings() == settings,
                Err(e) => r == Err::<Eip1559Pricing, ConfigError>(e),
            },
    {
        match settings.validate() {
            Ok(_) => Ok(Eip1559Pricing { settings }),
            Err(e) => Err(e),
        }
    }

    /// The controller's settings.
    pub fn settings(&self) -> (r: &Eip1559Settings)
        ensures
            *r == self.spec_settings(),
            r.spec_validate() is Ok,
    {
        proof {
            use_type_invariant(self);
        }
        &self.settings
    }
}

impl Clone for Eip1559Pricing {
    fn clone(&self) -> (r: Eip1559Pricing)
        ensures
            r.spec_settings() == self.spec_settings(),
    {
        proof {
            use_type_invariant(self);
        }
        Eip1559Pricing { settings: self.settings }
    }
}

/// The controller's signed move, before clamping, as a rational over
/// `spec_step_den`: `(util - target) / (target * D)`.
pub open spec fn spec_step_num_a(util_num: u128, s: Eip1559Settings) -> u128 {
    spec_sat_mul_u128(util_num, s.target_den as u128)
}

pub open spec fn spec_step_num_b(util_den: u128, s: Eip1559Settings) -> u128 {
    spec_sat_mul_u128(s.target_num as u128, util_den)
}

pub open spec fn spec_step_den(util_den: u128, s: Eip1559Settings) -> u128 {
    spec_sat_mul_u128(
        spec_sat_mul_u128(util_den, s.target_num as u128),
        s.max_change_denominator as u128,
    )
}

/// One controller step from `parent_quote` given the window utilisation
/// `util = (util_num, util_den)`: no move when `util_den == 0`; otherwise
/// `ceil(q * (den +- min(|signal|, den / D)) / den)` with saturating `u128`
/// intermediates, floored at `min_fee_a` and saturated to `u64`.
pub open spec fn spec_compute_eip1559_step(
    parent_quote: u64,
    util: (u128, u128),
    s: Eip1559Settings,
) -> u64 {
    let (util_num, util_den) = util;
    if util_den == 0 {
        parent_quote
    } else {
        let num_a = spec_step_num_a(util_num, s);
        let num_b = spec_step_num_b(util_den, s);
        let den = spec_step_den(util_den, s);
        let positive = num_a >= num_b;
        let signal_abs = if positive {
            num_a - num_b
        } else {
            num_b - num_a
        };
        let max_step = den / (s.max_change_denominator as u128);
        let move_num = if signal_abs > max_step {
            max_step
        } else {
            signal_abs as u128
        };
        let q = parent_quote as u128;
        let new_quote_num = if positive {
            spec_sat_mul_u128(q, spec_sat_add_u128(den, move_num))
        } else {
            spec_sat_mul_u128(q, spec_sat_sub_u128(den, move_num))
        };
        let new_quote: int = if new_quote_num == 0 {
            0
        } else {
            (new_quote_num - 1) / (den as int) + 1
        };
        let clamped = if new_quote < s.min_fee_a {
            s.min_fee_a as int
        } else {
            new_quote
        };
        spec_clamp_u64(clamped)
    }
}

/// Pure EIP-1559 step; see `spec_compute_eip1559_step`.
pub fn compute_eip1559_step(parent_quote: u64, util: (u128, u128), settings: &Eip1559Settings) -> (r:
    u64)
    requires
        settings.max_change_denominator > 0,
    ensures
        r == spec_compute_eip1559_step(parent_quote, util, *settings),
{
    let (util_num, util_den) = util;
    if util_den == 0 {
        return parent_quote;
    }
    let target_num = settings.target_num as u128;
    let target_den = settings.target_den as u128;
    let d = settings.max_change_denominator as u128;
    let num_a = sat_mul_u128(util_num, target_den);
    let num_b = sat_mul_u128(target_num, util_den);
    let den = sat_mul_u128(sat_mul_u128(util_den, target_num), d);
    let signal_positive = num_a >= num_b;
    let signal_abs_num = if signal_positive {
        num_a - num_b
    } else {
        num_b - num_a
    };
    let max_step_num = den / d;
    let mut move_num = signal_abs_num;
    let move_den = den;
    if move_num > max_step_num {
        move_num = max_step_num;
    }
    let q = parent_quote as u128;
    let new_quote_num = if signal_positive {
        sat_mul_u128(q, move_den.saturating_add(move_num))
    } else {
        sat_mul_u128(q, move_den.saturating_sub(move_num))
    };
    let new_quote: u128 = if new_quote_num == 0 {
        0
    } else {
        assert(move_den != 0) by {
            if move_den == 0 {
                assert(max_step_num == 0);
                assert(move_num == 0);
                assert(spec_sat_add_u128(move_den, move_num) == 0);
                assert(spec_sat_sub_u128(move_den, move_num) == 0);
                assert(q * 0 == 0) by (nonlinear_arith);
                assert(spec_sat_mul_u128(q, 0) == 0);
            }
        }
        (new_quote_num - 1) / move_den + 1
    };
    let floor = settings.min_fee_a as u128;
    let clamped = if new_quote < floor {
        floor
    } else {
        new_quote
    };
    clamp_u128_to_u64(clamped)
}

/// One max-up controller step from `q`: the `+1/D` clamp `q * (D+1) / D`,
/// rounded up as the controller rounds, saturating at `u64::MAX`.
pub open spec fn spec_max_up_step(q: u64, d: u64) -> u64 {
    let x: int = q * (d + 1);
    spec_clamp_u64(if x == 0 { 0 } else { (x - 1) / (d as int) + 1 })
}

/// The quote after `n` consecutive max-up steps from `q`.
pub open spec fn spec_max_up_steps(q: u64, d: u64, n: nat) -> u64
    decreases n,
{
    if n == 0 {
        q
    } else {
        spec_max_up_step(spec_max_up_steps(q, d, (n - 1) as nat), d)
    }
}

/// Number of steps a projection over `blocks_ahead` blocks takes: at most 32.
pub open spec fn spec_projection_steps(blocks_ahead: u32) -> nat {
    if blocks_ahead > 32 {
        32
    } else {
        blocks_ahead as nat
    }
}

/// Worst-case quote after `n = min(blocks_ahead, 32)` consecutive max-up
/// controller steps, each rounded up; `u64::MAX` when `(D+1)^n` does not fit
/// in `u128`; `q` itself when `D == 0` or `blocks_ahead == 0`.
pub open spec fn spec_worst_case_eip1559_quote(current_quote: u64, d: u64, blocks_ahead: u32) -> u64 {
    if d == 0 || blocks_ahead == 0 {
        current_quote
    } else {
        let n = spec_projection_steps(blocks_ahead);
        if vstd::arithmetic::power::pow(d + 1, n) > u128::MAX {
            u64::MAX
        } else {
            spec_max_up_steps(current_quote, d, n)
        }
    }
}

/// `base^exp` in `u128`, or `None` when it does not fit (`base >= 1`).
fn checked_pow_u128(base: u128, exp: u32) -> (r: Option<u128>)
    requires
        base >= 1,
    ensures
        match r {
            Some(v) => v == vstd::arithmetic::power::pow(base as int, exp as nat),
            None => vstd::arithmetic::power::pow(base as int, exp as nat) > u128::MAX,
        },
{
    let mut acc: u128 = 1;
    let mut i: u32 = 0;
    proof {
        vstd::arithmetic::power::lemma_pow0(base as int);
    }
    while i < exp
        invariant
            i <= exp,
            base >= 1,
            acc == vstd::arithmetic::power::pow(base as int, i as nat),
        decreases exp - i,
    {
        proof {
            vstd::arithmetic::power::lemma_pow_adds(base as int, i as nat, 1);
            vstd::arithmetic::power::lemma_pow1(base as int);
        }
        match acc.checked_mul(base) {
            Some(v) => {
                acc = v;
            },
            None => {
                proof {
                    vstd::arithmetic::power::lemma_pow_increases(
                        base as nat,
                        (i + 1) as nat,
                        exp as nat,
                    );
                }
                return None;
            },
        }
        i = i + 1;
    }
    Some(acc)
}

/// One max-up controller step; see `spec_max_up_step`.
fn max_up_step(q: u64, d: u64) -> (r: u64)
    requires
        d > 0,
    ensures
        r == spec_max_up_step(q, d),
{
    assert(q * (d + 1) <= u128::MAX) by (nonlinear_arith)
        requires
            q <= u64::MAX,
            d <= u64::MAX,
    ;
    let x: u128 = q as u128 * (d as u128 + 1);
    let v: u128 = if x == 0 {
        0
    } else {
        (x - 1) / (d as u128) + 1
    };
    clamp_u128_to_u64(v)
}

/// Worst-case EIP-1559 quote after `blocks_ahead` max-up steps (capped at
/// 32 steps); see `spec_worst_case_eip1559_quote`.
pub fn worst_case_eip1559_quote(current_quote: u64, d: u64, blocks_ahead: u32) -> (r: u64)
    ensures
        r == spec_worst_case_eip1559_quote(current_quote, d, blocks_ahead),
{
    if d == 0 || blocks_ahead == 0 {
        return current_quote;
    }
    let n: u32 = if blocks_ahead > 32 {
        32
    } else {
        blocks_ahead
    };
    if checked_pow_u128(d as u128 + 1, n).is_none() {
        return u64::MAX;
    }
    let mut acc: u64 = current_quote;
    let mut i: u32 = 0;
    while i < n
        invariant
            i <= n,
            d > 0,
            acc == spec_max_up_steps(current_quote, d, i as nat),
        decreases n - i,
    {
        acc = max_up_step(acc, d);
        i = i + 1;
    }
    acc
}

/// Lane-aware projection for single-lane settings: both lanes share one
/// controller, so the lane does not matter.
pub fn worst_case_quote_at(
    current_quote: u64,
    settings: &Eip1559Settings,
    lane: Lane,
    blocks_ahead: u32,
) -> (r: u64)
    ensures
        r == spec_worst_case_eip1559_quote(
            current_quote,
            settings.max_change_denominator,
            blocks_ahead,
        ),
{
    worst_case_eip1559_quote(current_quote, settings.max_change_denominator, blocks_ahead)
}

} // verus!

verus! {

/// The samples of `samples` that feed `lane`, in order.
pub open spec fn spec_samples_of_lane(samples: Seq<PricedBlockSample>, lane: Lane) -> Seq<
    PricedBlockSample,
>
    decreases samples.len(),
{
    if samples.len() == 0 {
        Seq::empty()
    } else {
        let prefix = spec_samples_of_lane(samples.drop_last(), lane);
        if samples.last().controller_lane == lane {
            prefix.push(samples.last())
        } else {
            prefix
        }
    }
}

fn samples_of_lane(samples: &[PricedBlockSample], lane: Lane) -> (r: Vec<PricedBlockSample>)
    ensures
        r@ == spec_samples_of_lane(samples@, lane),
{
    let mut out: Vec<PricedBlockSample> = Vec::new();
    let n = samples.len();
    for i in 0..n
        invariant
            n == samples@.len(),
            out@ == spec_samples_of_lane(samples@.take(i as int), lane),
    {
        assert(samples@.take(i + 1).drop_last() == samples@.take(i as int));
        if samples[i].controller_lane == lane {
            out.push(samples[i]);
        }
    }
    assert(samples@.take(n as int) == samples@);
    out
}

/// The single-lane controller's child aggregate: the parent's, plus the
/// parent's standard samples, minus the evicted standard samples.
pub open spec fn spec_eip1559_aggregate(
    parent_aggregate: WindowAggregate,
    parent_samples: Seq<PricedBlockSample>,
    evicted_samples: Seq<PricedBlockSample>,
) -> WindowAggregate {
    spec_sub_all(
        spec_add_all(parent_aggregate, spec_samples_of_lane(parent_samples, Lane::Standard)),
        spec_samples_of_lane(evicted_samples, Lane::Standard),
    )
}

/// The single-lane controller's child quote: the parent's when the window
/// holds no sample, otherwise one controller step on the window's
/// standard-lane utilisation.
pub open spec fn spec_eip1559_quote(
    parent_quote: u64,
    aggregate: WindowAggregate,
    settings: Eip1559Settings,
) -> u64 {
    if aggregate.blocks_in_window == 0 {
        parent_quote
    } else {
        spec_compute_eip1559_step(
            parent_quote,
            aggregate.spec_aggregate_util(Lane::Standard),
            settings,
        )
    }
}

impl PricingBackend for Eip1559Pricing {
    /// Only standard-lane samples feed the controller; both lanes of the
    /// child quote carry the controller's value.
    fn compute_derived_quote(
        &self,
        parent_quote: PerLaneQuote,
        parent_aggregate: WindowAggregate,
        parent_samples: &[PricedBlockSample],
        evicted_samples: &[PricedBlockSample],
    ) -> (r: (PerLaneQuote, WindowAggregate))
        ensures
            r.1 == spec_eip1559_aggregate(parent_aggregate, parent_samples@, evicted_samples@),
            r.0.standard == spec_eip1559_quote(parent_quote.standard, r.1, self.spec_settings()),
            r.0.priority == r.0.standard,
    {
        proof {
            use_type_invariant(self);
        }
        let add = samples_of_lane(parent_samples, Lane::Standard);
        let evict = samples_of_lane(evicted_samples, Lane::Standard);
        let new_aggregate = update_aggregate(
            parent_aggregate,
            add.as_slice(),
            evict.as_slice(),
            self.settings.window_length,
        );
        let new_quote = if new_aggregate.blocks_in_window == 0 {
            parent_quote.standard
        } else {
            let util = new_aggregate.aggregate_util(Lane::Standard);
            compute_eip1559_step(parent_quote.standard, util, &self.settings)
        };
        (PerLaneQuote::flat(new_quote), new_aggregate)
    }

    fn effective_window_length(&self) -> (r: usize)
        ensures
            r == self.spec_settings().window_length,
    {
        self.settings.window_length
    }

    /// `max(initial_quote_per_byte, min_fee_a)`.
    fn cold_start_quote(&self, lane: Lane) -> (r: u64)
        ensures
            r == if self.spec_settings().initial_quote_per_byte < self.spec_settings().min_fee_a {
                self.spec_settings().min_fee_a
            } else {
                self.spec_settings().initial_quote_per_byte
            },
    {
        if self.settings.initial_quote_per_byte < self.settings.min_fee_a {
            self.settings.min_fee_a
        } else {
            self.settings.initial_quote_per_byte
        }
    }

    fn lane_validity_rule(&self, block_kind: BlockKind) -> (r: LaneValidityRule)
        ensures
            r == LaneValidityRule::Unrestricted,
    {
        LaneValidityRule::Unrestricted
    }

    fn lane_selection_order(&self) -> (r: LaneSelectionOrder)
        ensures
            r == LaneSelectionOrder::Fifo,
    {
        LaneSelectionOrder::Fifo
    }
}

} // verus!
