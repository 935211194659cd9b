use tiered_pricing::chain_pricing::ConfigError;
use tiered_pricing::chain_pricing::single_lane::Eip1559Settings;
use tiered_pricing::chain_pricing::two_lane::{TwoLanePricing, TwoLaneSettings, TwoLaneVariant};
use tiered_pricing::chain_pricing::{
    BlockKind, BlockLaneBreakdown, Lane, LaneSelectionOrder, LaneValidityRule, Multiplier,
    PricedBlockSample, PricingBackend,
};
use tiered_pricing::model::{PerLaneQuote, WindowAggregate};

fn settings(variant: TwoLaneVariant) -> TwoLaneSettings {
    TwoLaneSettings {
        variant,
        priority: Eip1559Settings {
            min_fee_a: 44,
            initial_quote_per_byte: 44,
            target_num: 1,
            target_den: 2,
            max_change_denominator: 8,
            window_length: 4,
        },
        standard: Eip1559Settings {
            min_fee_a: 44,
            initial_quote_per_byte: 44,
            target_num: 1,
            target_den: 2,
            max_change_denominator: 8,
            window_length: 4,
        },
        multiplier_floor: Multiplier::new(16, 1).unwrap(),
        lane_selection_order: LaneSelectionOrder::PriorityFirst,
        priority_reservation_bytes: 90_000,
    }
}

#[test]
fn rb_reserved_forces_priority_window_length_one() {
    let pricing = TwoLanePricing::new(settings(TwoLaneVariant::RbReservedPriorityOnly)).unwrap();
    assert_eq!(pricing.settings().priority.window_length, 1);
}

#[test]
fn unreserved_keeps_priority_window_length_from_settings() {
    let pricing = TwoLanePricing::new(settings(TwoLaneVariant::UnreservedPriorityOnly)).unwrap();
    assert_eq!(pricing.settings().priority.window_length, 4);
}

#[test]
fn priority_only_variant_pins_standard_at_min_fee_a() {
    let pricing = TwoLanePricing::new(settings(TwoLaneVariant::RbReservedPriorityOnly)).unwrap();
    let q_standard = pricing.cold_start_quote(Lane::Standard);
    assert_eq!(q_standard, 44);
    let parent = PerLaneQuote { standard: 44, priority: pricing.cold_start_quote(Lane::Priority) };
    let (q, _) = pricing.compute_derived_quote(
        parent,
        WindowAggregate::zero(),
        &[PricedBlockSample {
            block_kind: BlockKind::EndorserBlock,
            controller_lane: Lane::Standard,
            relevant_bytes: 100,
            relevant_capacity: 100,
        }],
        &[],
    );
    assert_eq!(q.standard, 44, "priority-only variant must not move c_standard");
}

#[test]
fn multiplier_floor_holds_at_construction() {
    let pricing = TwoLanePricing::new(settings(TwoLaneVariant::RbReservedBothDynamic)).unwrap();
    let q_p = pricing.cold_start_quote(Lane::Priority);
    let q_s = pricing.cold_start_quote(Lane::Standard);
    assert_eq!(q_s, 44);
    assert_eq!(q_p, 16 * 44);
}

#[test]
fn multiplier_floor_holds_after_standard_moves_up() {
    let pricing = TwoLanePricing::new(settings(TwoLaneVariant::RbReservedBothDynamic)).unwrap();
    let mut q = PerLaneQuote {
        standard: pricing.cold_start_quote(Lane::Standard),
        priority: pricing.cold_start_quote(Lane::Priority),
    };
    let mut agg = WindowAggregate::zero();
    let sample = PricedBlockSample {
        block_kind: BlockKind::EndorserBlock,
        controller_lane: Lane::Standard,
        relevant_bytes: 100,
        relevant_capacity: 100,
    };
    for _ in 0..20 {
        let (nq, na) = pricing.compute_derived_quote(q, agg, &[sample], &[]);
        let floor = (16u128 * nq.standard as u128) as u64;
        assert!(
            nq.priority >= floor,
            "multiplier-floor violation: q_p={} q_s={} floor={}",
            nq.priority,
            nq.standard,
            floor
        );
        q = nq;
        agg = na;
    }
}

#[test]
fn rb_reserved_only_emits_priority_sample_for_rb() {
    let pricing = TwoLanePricing::new(settings(TwoLaneVariant::RbReservedBothDynamic)).unwrap();
    let breakdown = BlockLaneBreakdown {
        priority_paying_bytes: 90_000,
        standard_paying_bytes: 0,
        block_capacity: 90_000,
    };
    let samples = pricing.samples_for_block(BlockKind::RankingBlock, &breakdown);
    assert_eq!(samples.len(), 1);
    assert_eq!(samples[0].controller_lane, Lane::Priority);
    assert_eq!(samples[0].relevant_bytes, 90_000);
    assert_eq!(samples[0].relevant_capacity, 90_000);
}

#[test]
fn rb_reserved_caps_priority_eb_bytes_at_one_rb() {
    let pricing = TwoLanePricing::new(settings(TwoLaneVariant::RbReservedPriorityOnly)).unwrap();
    let breakdown = BlockLaneBreakdown {
        priority_paying_bytes: 1_000_000,
        standard_paying_bytes: 5_000_000,
        block_capacity: 12_000_000,
    };
    let samples = pricing.samples_for_block(BlockKind::EndorserBlock, &breakdown);
    let priority_sample = samples.iter().find(|s| s.controller_lane == Lane::Priority).unwrap();
    assert_eq!(priority_sample.relevant_bytes, 90_000);
    assert_eq!(priority_sample.relevant_capacity, 90_000);
    assert!(
        priority_sample.relevant_bytes <= priority_sample.relevant_capacity,
        "saturating priority must keep signal in [0, 1]"
    );
}

#[test]
fn rb_reserved_both_dynamic_eb_emits_two_samples() {
    let pricing = TwoLanePricing::new(settings(TwoLaneVariant::RbReservedBothDynamic)).unwrap();
    let breakdown = BlockLaneBreakdown {
        priority_paying_bytes: 50_000,
        standard_paying_bytes: 5_000_000,
        block_capacity: 12_000_000,
    };
    let samples = pricing.samples_for_block(BlockKind::EndorserBlock, &breakdown);
    assert_eq!(samples.len(), 2);
    let priority = samples.iter().find(|s| s.controller_lane == Lane::Priority).unwrap();
    let standard = samples.iter().find(|s| s.controller_lane == Lane::Standard).unwrap();
    assert_eq!(priority.relevant_bytes, 50_000);
    assert_eq!(priority.relevant_capacity, 90_000);
    assert_eq!(standard.relevant_bytes, 5_000_000);
    assert_eq!(standard.relevant_capacity, 12_000_000);
}

#[test]
fn unreserved_priority_only_emits_only_priority_sample() {
    let pricing = TwoLanePricing::new(settings(TwoLaneVariant::UnreservedPriorityOnly)).unwrap();
    let breakdown = BlockLaneBreakdown {
        priority_paying_bytes: 1_000_000,
        standard_paying_bytes: 5_000_000,
        block_capacity: 12_000_000,
    };
    let samples = pricing.samples_for_block(BlockKind::EndorserBlock, &breakdown);
    assert_eq!(samples.len(), 1);
    assert_eq!(samples[0].controller_lane, Lane::Priority);
    assert_eq!(samples[0].relevant_bytes, 1_000_000);
    assert_eq!(samples[0].relevant_capacity, 12_000_000);
}

#[test]
fn unreserved_both_dynamic_emits_two_samples_for_each_block_kind() {
    let pricing = TwoLanePricing::new(settings(TwoLaneVariant::UnreservedBothDynamic)).unwrap();
    let breakdown = BlockLaneBreakdown {
        priority_paying_bytes: 30_000,
        standard_paying_bytes: 60_000,
        block_capacity: 90_000,
    };
    let rb_samples = pricing.samples_for_block(BlockKind::RankingBlock, &breakdown);
    let eb_samples = pricing.samples_for_block(BlockKind::EndorserBlock, &breakdown);
    assert_eq!(rb_samples.len(), 2);
    assert_eq!(eb_samples.len(), 2);
    for samples in [&rb_samples, &eb_samples] {
        assert!(samples.iter().any(|s| s.controller_lane == Lane::Priority));
        assert!(samples.iter().any(|s| s.controller_lane == Lane::Standard));
    }
}

#[test]
fn lane_validity_rule_priority_only_for_rb_reserved_rb() {
    for variant in [TwoLaneVariant::RbReservedPriorityOnly, TwoLaneVariant::RbReservedBothDynamic] {
        let pricing = TwoLanePricing::new(settings(variant)).unwrap();
        assert_eq!(
            pricing.lane_validity_rule(BlockKind::RankingBlock),
            LaneValidityRule::PriorityOnly,
            "{variant:?}"
        );
        assert_eq!(
            pricing.lane_validity_rule(BlockKind::EndorserBlock),
            LaneValidityRule::Unrestricted,
            "{variant:?}"
        );
    }
    for variant in [TwoLaneVariant::UnreservedPriorityOnly, TwoLaneVariant::UnreservedBothDynamic] {
        let pricing = TwoLanePricing::new(settings(variant)).unwrap();
        assert_eq!(
            pricing.lane_validity_rule(BlockKind::RankingBlock),
            LaneValidityRule::Unrestricted,
            "{variant:?}"
        );
    }
}

#[test]
fn rb_reserved_standard_isolation_does_not_move_c_standard_on_priority_rb() {
    let pricing = TwoLanePricing::new(settings(TwoLaneVariant::RbReservedBothDynamic)).unwrap();
    let parent_q = PerLaneQuote {
        standard: pricing.cold_start_quote(Lane::Standard),
        priority: pricing.cold_start_quote(Lane::Priority),
    };
    let breakdown = BlockLaneBreakdown {
        priority_paying_bytes: 90_000,
        standard_paying_bytes: 0,
        block_capacity: 90_000,
    };
    let samples = pricing.samples_for_block(BlockKind::RankingBlock, &breakdown);
    assert_eq!(samples.len(), 1);
    assert_eq!(samples[0].controller_lane, Lane::Priority);
    let (q, new_agg) =
        pricing.compute_derived_quote(parent_q, WindowAggregate::zero(), &samples, &[]);
    assert_eq!(q.standard, parent_q.standard, "saturated priority-only RB must not move c_standard");
    assert_eq!(
        new_agg.standard_sum_bytes, 0,
        "saturated priority-only RB must not feed the standard window"
    );
    assert_eq!(new_agg.standard_sum_capacity, 0);
}

#[test]
fn rejects_zero_denominator_floor() {
    let mut s = settings(TwoLaneVariant::RbReservedBothDynamic);
    s.multiplier_floor = Multiplier { numerator: 16, denominator: 0 };
    assert!(TwoLanePricing::new(s).is_err());
}

#[test]
fn rejects_floor_below_one() {
    let mut s = settings(TwoLaneVariant::RbReservedBothDynamic);
    s.multiplier_floor = Multiplier::new(1, 2).unwrap();
    assert!(TwoLanePricing::new(s).is_err());
}

#[test]
fn sibling_rbs_produce_identical_derived_quote() {
    let pricing = TwoLanePricing::new(settings(TwoLaneVariant::RbReservedBothDynamic)).unwrap();
    let parent_q = PerLaneQuote {
        standard: pricing.cold_start_quote(Lane::Standard),
        priority: pricing.cold_start_quote(Lane::Priority),
    };
    let parent_agg = WindowAggregate::zero();
    let breakdown = BlockLaneBreakdown {
        priority_paying_bytes: 50_000,
        standard_paying_bytes: 5_000_000,
        block_capacity: 12_000_000,
    };
    let samples = pricing.samples_for_block(BlockKind::EndorserBlock, &breakdown);
    let (a_q, a_agg) = pricing.compute_derived_quote(parent_q, parent_agg, &samples, &[]);
    let (b_q, b_agg) = pricing.compute_derived_quote(parent_q, parent_agg, &samples, &[]);
    assert_eq!(a_q, b_q, "sibling derived_quote must be identical");
    assert_eq!(a_agg, b_agg, "sibling window_aggregate must be identical");
}

// Further cases.

#[test]
fn two_lane_settings_errors() {
    let mut s = settings(TwoLaneVariant::RbReservedBothDynamic);
    s.standard.min_fee_a = 45;
    assert_eq!(s.validate(), Err(ConfigError::MinFeeMismatch { priority: 44, standard: 45 }));
    assert_eq!(
        s.validate().unwrap_err().message(),
        "TwoLaneSettings.priority.min_fee_a (44) and standard.min_fee_a (45) must match"
    );
    let mut s = settings(TwoLaneVariant::RbReservedBothDynamic);
    s.priority_reservation_bytes = 0;
    assert_eq!(s.validate(), Err(ConfigError::ZeroPriorityReservation));
    assert_eq!(s.validate().unwrap_err().message(), "priority_reservation_bytes must be non-zero");
    let mut s = settings(TwoLaneVariant::RbReservedBothDynamic);
    s.multiplier_floor = Multiplier { numerator: u64::MAX, denominator: 1 };
    assert_eq!(
        s.validate(),
        Err(ConfigError::MultiplierFloorRatioTooLarge { numerator: u64::MAX, denominator: 1 })
    );
    assert_eq!(
        s.validate().unwrap_err().message(),
        "TwoLaneSettings.multiplier_floor ratio too large: 18446744073709551615/1 exceeds 2^32 cap; \
         the u128 \u{2192} u64 conversion in the multiplier-floor enforcement would saturate silently"
    );
    let mut s = settings(TwoLaneVariant::RbReservedBothDynamic);
    s.multiplier_floor = Multiplier { numerator: 1, denominator: 2 };
    assert_eq!(s.validate(), Err(ConfigError::MultiplierFloorBelowOne { numerator: 1, denominator: 2 }));
    assert_eq!(s.validate().unwrap_err().message(), "multiplier_floor must be \u{2265} 1 (got 1/2)");
    let mut s = settings(TwoLaneVariant::RbReservedBothDynamic);
    s.multiplier_floor = Multiplier { numerator: 3, denominator: 0 };
    assert_eq!(s.validate(), Err(ConfigError::ZeroMultiplierFloorDenominator));
    assert_eq!(s.validate().unwrap_err().message(), "multiplier_floor.denominator must be non-zero");
    assert_eq!(Multiplier::new(3, 0), Err(ConfigError::ZeroDenominator));
    assert_eq!(ConfigError::ZeroDenominator.message(), "Multiplier denominator must be non-zero");
    // A lane's own settings error comes first.
    let mut s = settings(TwoLaneVariant::RbReservedBothDynamic);
    s.priority.min_fee_a = 0;
    assert_eq!(s.validate(), Err(ConfigError::ZeroMinFee));
}

#[test]
fn two_lane_window_lengths_and_worst_case() {
    let reserved = TwoLanePricing::new(settings(TwoLaneVariant::RbReservedBothDynamic)).unwrap();
    assert_eq!(reserved.effective_window_length(), 4);
    assert_eq!(reserved.worst_case_quote_for(1000, Lane::Priority, 1), 1125);
    assert_eq!(reserved.worst_case_quote_for(1000, Lane::Priority, 0), 1000);
}
