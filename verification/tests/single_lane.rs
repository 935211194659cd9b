use tiered_pricing::chain_pricing::ConfigError;
use tiered_pricing::chain_pricing::single_lane::worst_case_quote_at;
use tiered_pricing::chain_pricing::snapshot_at;
use tiered_pricing::chain_pricing::single_lane::worst_case_eip1559_quote;
use tiered_pricing::chain_pricing::single_lane::{
    compute_eip1559_step, BaselinePricing, Eip1559Pricing, Eip1559Settings,
};
use tiered_pricing::chain_pricing::{BlockKind, Lane, PricedBlockSample, PricingBackend};
use tiered_pricing::model::{PerLaneQuote, WindowAggregate};

fn standard_rb(bytes: u64, capacity: u64) -> PricedBlockSample {
    PricedBlockSample {
        block_kind: BlockKind::RankingBlock,
        controller_lane: Lane::Standard,
        relevant_bytes: bytes,
        relevant_capacity: capacity,
    }
}

fn settings(initial: u64, d: u64) -> Eip1559Settings {
    Eip1559Settings {
        min_fee_a: 44,
        initial_quote_per_byte: initial,
        target_num: 1,
        target_den: 2,
        max_change_denominator: d,
        window_length: 4,
    }
}

#[test]
fn baseline_pricing_returns_min_fee_a() {
    let pricing = BaselinePricing::new(44);
    let (q, _) = pricing.compute_derived_quote(
        PerLaneQuote::flat(44),
        WindowAggregate::zero(),
        &[standard_rb(90_000, 90_000)],
        &[],
    );
    assert_eq!(q.standard, 44);
    assert_eq!(q.priority, 44);
}

#[test]
fn baseline_pricing_does_not_drift() {
    let pricing = BaselinePricing::new(44);
    let (q1, agg1) = pricing.compute_derived_quote(
        PerLaneQuote::flat(44),
        WindowAggregate::zero(),
        &[standard_rb(90_000, 90_000)],
        &[],
    );
    let (q2, _) = pricing.compute_derived_quote(q1, agg1, &[standard_rb(100, 100)], &[]);
    assert_eq!(q2.standard, 44);
}

#[test]
fn eip1559_at_target_does_not_move() {
    let pricing = Eip1559Pricing::new(settings(1000, 8)).unwrap();
    let (q, _) = pricing.compute_derived_quote(
        PerLaneQuote::flat(1000),
        WindowAggregate::zero(),
        &[standard_rb(50, 100)],
        &[],
    );
    assert_eq!(q.standard, 1000);
}

#[test]
fn eip1559_above_target_moves_up_within_step_clamp() {
    let pricing = Eip1559Pricing::new(settings(1000, 8)).unwrap();
    let (q, _) = pricing.compute_derived_quote(
        PerLaneQuote::flat(1000),
        WindowAggregate::zero(),
        &[standard_rb(100, 100)],
        &[],
    );
    assert!(q.standard > 1000, "expected upward move, got {}", q.standard);
    assert!(q.standard <= 1125, "expected ≤ +12.5% clamp, got {}", q.standard);
}

#[test]
fn eip1559_below_target_moves_down_within_step_clamp() {
    let pricing = Eip1559Pricing::new(settings(1000, 8)).unwrap();
    let (q, _) = pricing.compute_derived_quote(
        PerLaneQuote::flat(1000),
        WindowAggregate::zero(),
        &[standard_rb(0, 100)],
        &[],
    );
    assert!(q.standard < 1000, "expected downward move, got {}", q.standard);
    assert!(q.standard >= 875, "expected ≥ -12.5% clamp, got {}", q.standard);
}

#[test]
fn eip1559_floor_at_min_fee_a() {
    let pricing = Eip1559Pricing::new(settings(100, 4)).unwrap();
    let mut q = PerLaneQuote::flat(100);
    let mut agg = WindowAggregate::zero();
    for _ in 0..200 {
        let (nq, na) = pricing.compute_derived_quote(q, agg, &[standard_rb(0, 100)], &[]);
        q = nq;
        agg = na;
    }
    assert_eq!(q.standard, 44);
}

#[test]
fn eip1559_uses_ceil_rounding_per_spec() {
    let pricing = Eip1559Pricing::new(Eip1559Settings {
        min_fee_a: 44,
        initial_quote_per_byte: 44,
        target_num: 1,
        target_den: 2,
        max_change_denominator: 8,
        window_length: 1,
    })
    .unwrap();
    let (q, _) = pricing.compute_derived_quote(
        PerLaneQuote::flat(44),
        WindowAggregate::zero(),
        &[standard_rb(100, 100)],
        &[],
    );
    assert_eq!(q.standard, 50, "rounding is ceil; floor would give 49");
}

#[test]
fn eip1559_quote_drift_under_sustained_saturation() {
    let pricing = Eip1559Pricing::new(settings(1000, 8)).unwrap();
    let mut q = PerLaneQuote::flat(1000);
    let mut agg = WindowAggregate::zero();
    let mut last = 1000u64;
    for _ in 0..30 {
        let (nq, na) = pricing.compute_derived_quote(q, agg, &[standard_rb(100, 100)], &[]);
        assert!(nq.standard >= last, "quote regressed: {last} -> {}", nq.standard);
        last = nq.standard;
        q = nq;
        agg = na;
    }
    assert!(last > 1500, "expected sustained drift to push quote well above 1500, got {last}");
}

#[test]
fn compute_eip1559_step_is_pure() {
    let s = settings(1000, 8);
    let a = compute_eip1559_step(1000, (50, 100), &s);
    let b = compute_eip1559_step(1000, (50, 100), &s);
    assert_eq!(a, b);
}

// Further cases.

#[test]
fn eip1559_step_exact_values() {
    let s = settings(1000, 8);
    // At target: unchanged.
    assert_eq!(compute_eip1559_step(1000, (50, 100), &s), 1000);
    // Saturated: +12.5%.
    assert_eq!(compute_eip1559_step(1000, (100, 100), &s), 1125);
    // Empty: -12.5%.
    assert_eq!(compute_eip1559_step(1000, (0, 100), &s), 875);
    // Floor at min_fee_a.
    assert_eq!(compute_eip1559_step(44, (0, 100), &s), 44);
}

#[test]
fn eip1559_settings_errors() {
    let mut s = settings(1000, 8);
    s.max_change_denominator = 0;
    assert_eq!(s.validate(), Err(ConfigError::ZeroMaxChangeDenominator));
    let mut s = settings(1000, 8);
    s.target_den = 0;
    assert_eq!(s.validate(), Err(ConfigError::ZeroTargetDenominator));
    let mut s = settings(1000, 8);
    s.window_length = 0;
    assert_eq!(s.validate(), Err(ConfigError::ZeroWindowLength));
    let mut s = settings(1000, 8);
    s.min_fee_a = 0;
    assert_eq!(s.validate(), Err(ConfigError::ZeroMinFee));
    let mut s = settings(1000, 8);
    s.target_num = 2;
    assert_eq!(s.validate(), Err(ConfigError::TargetNotInUnitInterval { target_num: 2, target_den: 2 }));
    // window_length * target_num * D = 2^20 * 1 * 16 = 2^24 > 2^23.
    let mut s = settings(1000, 16);
    s.window_length = 1 << 20;
    assert_eq!(
        s.validate(),
        Err(ConfigError::ControllerOverflowBudget {
            window_length: 1 << 20,
            target_num: 1,
            max_change_denominator: 16,
            product: Some(1 << 24),
        })
    );
    assert!(Eip1559Pricing::new(s).is_err());
    // A product past u128 is reported as absent.
    let mut s = settings(1000, u64::MAX);
    s.target_den = u64::MAX;
    s.target_num = u64::MAX - 1;
    s.window_length = 4;
    assert_eq!(
        s.validate(),
        Err(ConfigError::ControllerOverflowBudget {
            window_length: 4,
            target_num: u64::MAX - 1,
            max_change_denominator: u64::MAX,
            product: None,
        })
    );
    assert_eq!(settings(1000, 8).validate(), Ok(()));
}

#[test]
fn eip1559_settings_error_messages() {
    assert_eq!(ConfigError::ZeroMinFee.message(), "Eip1559Settings.min_fee_a must be non-zero");
    assert_eq!(ConfigError::ZeroTargetDenominator.message(), "Eip1559Settings.target_den must be non-zero");
    assert_eq!(
        ConfigError::TargetNotInUnitInterval { target_num: 2, target_den: 2 }.message(),
        "Eip1559Settings.target_num/target_den must be a fraction in (0, 1); got 2/2"
    );
    assert_eq!(
        ConfigError::ZeroMaxChangeDenominator.message(),
        "Eip1559Settings.max_change_denominator must be non-zero"
    );
    assert_eq!(ConfigError::ZeroWindowLength.message(), "Eip1559Settings.window_length must be non-zero");
    let mut s = settings(1000, 16);
    s.window_length = 1 << 20;
    assert_eq!(
        s.validate().unwrap_err().message(),
        "Eip1559Settings: controller intermediates may overflow u128: window_length (1048576) \u{d7} \
         target_num (1) \u{d7} max_change_denominator (16) must be \u{2264} 2^23 = 8388608; got product \
         Some(16777216)"
    );
    assert_eq!(
        ConfigError::ControllerOverflowBudget {
            window_length: 4,
            target_num: 7,
            max_change_denominator: 9,
            product: None,
        }
        .message(),
        "Eip1559Settings: controller intermediates may overflow u128: window_length (4) \u{d7} \
         target_num (7) \u{d7} max_change_denominator (9) must be \u{2264} 2^23 = 8388608; got product None"
    );
}

#[test]
fn worst_case_quote_bounds_one_step() {
    assert_eq!(worst_case_eip1559_quote(1000, 8, 0), 1000);
    assert_eq!(worst_case_eip1559_quote(1000, 8, 1), 1125);
    let s = settings(1000, 8);
    assert!(compute_eip1559_step(1000, (100, 100), &s) <= worst_case_eip1559_quote(1000, 8, 1));
}

#[test]
fn worst_case_quote_rounds_every_step() {
    // 44 * 9/8 = 49.5 rounds up to 50; 50 * 9/8 = 56.25 rounds up to 57.
    assert_eq!(worst_case_eip1559_quote(44, 8, 1), 50);
    assert_eq!(worst_case_eip1559_quote(44, 8, 2), 57);
    // Large quotes never project below themselves.
    assert_eq!(worst_case_eip1559_quote(1 << 60, 1 << 23, 3), 1152921916923756545);
    assert!(worst_case_eip1559_quote(1 << 60, 1 << 23, 3) >= 1 << 60);
}

#[test]
fn worst_case_quote_grows_with_the_horizon() {
    let mut last = worst_case_eip1559_quote(1000, 8, 0);
    for blocks in 1..=40u32 {
        let next = worst_case_eip1559_quote(1000, 8, blocks);
        assert!(next >= last);
        assert!(next >= 1000);
        last = next;
    }
}

#[test]
fn worst_case_quote_saturates_and_caps_the_horizon() {
    // A step past u64::MAX saturates.
    assert_eq!(worst_case_eip1559_quote(u64::MAX / 2, 1, 1), u64::MAX - 1);
    assert_eq!(worst_case_eip1559_quote(u64::MAX / 2, 1, 2), u64::MAX);
    // (D+1)^n beyond u128 projects to u64::MAX: 16^32 = 2^128.
    assert_eq!(worst_case_eip1559_quote(1, 15, 32), u64::MAX);
    // One block fewer fits, and thirty-one rounded steps of 1/15 take 1 to 59.
    assert_eq!(worst_case_eip1559_quote(1, 15, 31), 59);
    // The horizon stops at 32 blocks.
    assert_eq!(worst_case_eip1559_quote(1000, 64, 40), worst_case_eip1559_quote(1000, 64, 32));
    // D == 0 leaves the quote alone.
    assert_eq!(worst_case_eip1559_quote(1000, 0, 5), 1000);
}

#[test]
fn worst_case_quote_at_ignores_the_lane() {
    let s = settings(1000, 8);
    assert_eq!(worst_case_quote_at(1000, &s, Lane::Standard, 2), worst_case_quote_at(1000, &s, Lane::Priority, 2));
    // Two max-up steps of 1/8, each rounded up: 1000 -> 1125 -> 1266.
    assert_eq!(worst_case_quote_at(1000, &s, Lane::Standard, 2), 1266);
}

#[test]
fn snapshot_reports_quotes_and_window_utilisation() {
    let agg = tiered_pricing::chain_pricing::window::aggregate_from_chain(&[standard_rb(45, 90)]);
    let single = snapshot_at(PerLaneQuote { standard: 50, priority: 60 }, agg, false);
    assert_eq!(single.standard_quote_per_byte, 50);
    assert_eq!(single.priority_quote_per_byte, None);
    assert_eq!(single.standard_window_util_x_1e9, Some(500_000_000));
    assert_eq!(single.priority_window_util_x_1e9, None);
    let two = snapshot_at(PerLaneQuote { standard: 50, priority: 60 }, agg, true);
    assert_eq!(two.priority_quote_per_byte, Some(60));
    assert_eq!(two.priority_window_util_x_1e9, None);
}
