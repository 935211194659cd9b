use tiered_pricing::tx_pricing::capacity::{fill_budget_rules, CapacityRule};
use tiered_pricing::tx_pricing::config_rules::{PriorityLaneConfigChecks, PriorityLaneConfigError};
use tiered_pricing::tx_pricing::history::QuotedAssignment;
use tiered_pricing::tx_pricing::config_rules::{decimal, RetryPolicyError};
use std::sync::Arc;

use tiered_pricing::model::{
    ActorId, TierId, Transaction, TransactionId, TransactionRejectReason, UrgencyProfile,
};
use tiered_pricing::tx_pricing::history::{SingleTierFeeHistory, TierAssignmentHistory};
use tiered_pricing::tx_pricing::inclusion::verify_preassigned_transaction;
use tiered_pricing::tx_pricing::pool::select_transactions_from_pool;
use tiered_pricing::tx_pricing::priority_lane::{
    priority_lane_snapshot, select_priority_lane_transactions,
};
use tiered_pricing::tx_pricing::selection::{
    select_best_lane_tier_for_tx, select_tier_for_tx, TierSelectionDelayModel,
};
use tiered_pricing::tx_pricing::tiers::initial_tiers;
use tiered_pricing::tx_pricing::{
    retry_delay_slots, BlockKind, PricingSnapshot, Tier, TierAssignmentSemantics,
    TierBlockSelectionPolicy, TierLane, TierQuote,
};

fn tx(
    id: u64,
    bytes: u64,
    submission_slot: u64,
    value: u64,
    urgency: UrgencyProfile,
    posted_fee: Option<u64>,
    tier: Option<TierId>,
    version: Option<u64>,
    delay: Option<u64>,
    price: Option<u64>,
) -> Transaction {
    Transaction {
        id: TransactionId::new(id),
        actor_id: ActorId::new(0),
        shard: 0,
        bytes,
        submission_slot,
        value,
        urgency,
        posted_fee,
        tier_preference: tier,
        tier_version_created_slot: version,
        tier_delay_slots: delay,
        tier_price_per_byte_at_assignment: price,
        eb_tier_preference: None,
        eb_tier_version_created_slot: None,
        eb_posted_fee: None,
        eb_tier_delay_slots: None,
        eb_tier_price_per_byte_at_assignment: None,
        assigned_block_kind: None,
        mempool_entry_slot: None,
        mempool_entry_rb_index: None,
        input_id: id,
        overcollateralization_factor: 0,
        urgency_component_index: None,
    }
}

fn test_tx(id: u64, tier: TierId, bytes: u64, fee: u64) -> Arc<Transaction> {
    Arc::new(tx(
        id,
        bytes,
        id,
        1_000_000,
        UrgencyProfile::Indifferent,
        Some(fee),
        Some(tier),
        Some(0),
        Some(1),
        Some(fee / bytes.max(1)),
    ))
}

fn tier(id: u64, lane: TierLane, capacity: u64, version: u64, delay: u64, price: u64) -> Tier {
    Tier {
        id: TierId::new(id),
        lane,
        capacity,
        version_created_slot: version,
        delay,
        price,
        used_capacity: 0,
        tx_count: 0,
    }
}

fn quote(id: u64, lane: TierLane, delay: u64, price_per_byte: u64) -> TierQuote {
    TierQuote { id: TierId::new(id), lane, version_created_slot: 0, delay, price_per_byte, base_fee: 0 }
}

/// Shared single-pool selection where each tier's budget is its capacity.
fn select_shared(
    txs: &[Arc<Transaction>],
    tiers: &[Tier],
    semantics: TierAssignmentSemantics,
    block_capacity: u64,
) -> Vec<Arc<Transaction>> {
    let budgets: Vec<u64> = tiers.iter().map(|t| t.capacity).collect();
    select_transactions_from_pool(
        txs,
        tiers,
        &budgets,
        semantics,
        TierBlockSelectionPolicy::Shared,
        BlockKind::RankingBlock,
        block_capacity,
        false,
        0,
        false,
        false,
    )
}

#[test]
fn assignment_history_retains_retired_records_for_window_then_prunes() {
    let tiers = vec![tier(0, TierLane::Ranking, 100, 0, 1, 10)];
    let mut history = TierAssignmentHistory::from_tiers(&tiers, 5, TierLane::Ranking, 0);
    assert_eq!(history.record(TierId::new(0), 0).map(|record| record.created_slot), Some(0));

    history.sync_with_tiers(&[], 10, TierLane::Ranking, 0);
    assert_eq!(
        history.record(TierId::new(0), 0).and_then(|record| record.retired_slot),
        Some(10)
    );

    history.sync_with_tiers(&[], 90, TierLane::Ranking, 0);
    assert!(history.record(TierId::new(0), 0).is_some());

    history.sync_with_tiers(&[], 91, TierLane::Ranking, 0);
    assert!(history.record(TierId::new(0), 0).is_none());
}

#[test]
fn admission_accepts_valid_quoted_assignment() {
    let tiers = vec![tier(0, TierLane::Ranking, 100, 7, 3, 10)];
    let history = TierAssignmentHistory::from_tiers(&tiers, 10, TierLane::Ranking, 0);
    let t = tx(1, 10, 4, 1_000_000, UrgencyProfile::Indifferent, Some(100), Some(TierId::new(0)), Some(7), Some(3), Some(10));
    assert_eq!(
        verify_preassigned_transaction(&t, false, TierBlockSelectionPolicy::Shared, &history, None),
        Ok(())
    );
}

#[test]
fn admission_rejects_invalid_quoted_assignment() {
    let tiers = vec![tier(0, TierLane::Ranking, 100, 9, 2, 11)];
    let history = TierAssignmentHistory::from_tiers(&tiers, 10, TierLane::Ranking, 0);
    let t = tx(2, 10, 4, 1_000_000, UrgencyProfile::Indifferent, Some(109), Some(TierId::new(0)), Some(9), Some(2), Some(11));
    assert_eq!(
        verify_preassigned_transaction(&t, false, TierBlockSelectionPolicy::Shared, &history, None),
        Err(TransactionRejectReason::InvalidQuotedAssignment)
    );
}

#[test]
fn admission_rejects_when_quoted_history_is_unavailable() {
    let tiers = vec![tier(0, TierLane::Ranking, 100, 9, 2, 11)];
    let history = TierAssignmentHistory::from_tiers(&tiers, 10, TierLane::Ranking, 0);
    let t = tx(3, 10, 4, 1_000_000, UrgencyProfile::Indifferent, Some(110), Some(TierId::new(0)), Some(5), Some(2), Some(11));
    assert_eq!(
        verify_preassigned_transaction(&t, false, TierBlockSelectionPolicy::Shared, &history, None),
        Err(TransactionRejectReason::QuotedHistoryUnavailable)
    );
}

#[test]
fn tiered_selection_keeps_tx_includable_after_repricing() {
    let tiers = vec![tier(0, TierLane::Ranking, 100, 10, 1, 12)];
    let t = Arc::new(tx(1, 10, 4, 1_000_000, UrgencyProfile::Indifferent, Some(100), Some(TierId::new(0)), Some(0), Some(1), Some(10)));
    let included = select_shared(std::slice::from_ref(&t), &tiers, TierAssignmentSemantics::NeverStale, 100);
    assert_eq!(included.len(), 1);
}

#[test]
fn legacy_revalidation_rejects_stale_assignment_after_repricing() {
    let tiers = vec![tier(0, TierLane::Ranking, 100, 10, 1, 12)];
    let t = Arc::new(tx(11, 10, 4, 1_000_000, UrgencyProfile::Indifferent, Some(100), Some(TierId::new(0)), Some(0), Some(1), Some(10)));
    let included = select_shared(
        std::slice::from_ref(&t),
        &tiers,
        TierAssignmentSemantics::LegacyRevalidateCurrentTier,
        100,
    );
    assert!(included.is_empty());
}

#[test]
fn tiered_selection_keeps_tx_includable_after_tier_removal() {
    let tiers = vec![tier(0, TierLane::Ranking, 100, 11, 1, 8)];
    let t = Arc::new(tx(2, 10, 4, 1_000_000, UrgencyProfile::Indifferent, Some(100), Some(TierId::new(1)), Some(7), Some(4), Some(10)));
    let included = select_shared(std::slice::from_ref(&t), &tiers, TierAssignmentSemantics::NeverStale, 100);
    assert_eq!(included.len(), 1);
}

#[test]
fn legacy_revalidation_rejects_stale_assignment_after_tier_removal() {
    let tiers = vec![tier(0, TierLane::Ranking, 100, 11, 1, 8)];
    let t = Arc::new(tx(12, 10, 4, 1_000_000, UrgencyProfile::Indifferent, Some(100), Some(TierId::new(1)), Some(7), Some(4), Some(10)));
    let included = select_shared(
        std::slice::from_ref(&t),
        &tiers,
        TierAssignmentSemantics::LegacyRevalidateCurrentTier,
        100,
    );
    assert!(included.is_empty());
}

#[test]
fn removed_tier_fallback_prefers_equal_or_cheaper_nearest_delay() {
    let tiers = vec![
        tier(0, TierLane::Ranking, 0, 0, 1, 30),
        tier(1, TierLane::Ranking, 0, 0, 4, 40),
        tier(2, TierLane::Ranking, 100, 0, 6, 35),
    ];
    let t = Arc::new(tx(9, 10, 0, 1_000_000, UrgencyProfile::Indifferent, Some(400), Some(TierId::new(9)), Some(1), Some(5), Some(40)));
    let included = select_shared(std::slice::from_ref(&t), &tiers, TierAssignmentSemantics::NeverStale, 100);
    assert_eq!(included.len(), 1);
    assert_eq!(included[0].id, t.id);
}

#[test]
fn removed_tier_fallback_routes_to_lowest_priority_when_no_equal_or_cheaper() {
    let tiers = vec![
        tier(0, TierLane::Ranking, 0, 0, 1, 50),
        tier(1, TierLane::Ranking, 0, 0, 3, 60),
        tier(2, TierLane::Ranking, 100, 0, 3, 70),
    ];
    let t = Arc::new(tx(10, 10, 0, 1_000_000, UrgencyProfile::Indifferent, Some(400), Some(TierId::new(9)), Some(1), Some(2), Some(40)));
    let included = select_shared(std::slice::from_ref(&t), &tiers, TierAssignmentSemantics::NeverStale, 100);
    assert_eq!(included.len(), 1);
    assert_eq!(included[0].id, t.id);
}

#[test]
fn eip1559_priority_lane_quotes_multiplier_and_delay_advantage() {
    // Base fee 90 with a 5x priority multiplier quotes 450 for the priority lane.
    let snapshot = priority_lane_snapshot(450, 90, 1, 2);
    assert_eq!(snapshot.tiers.len(), 2);
    assert_eq!(snapshot.tiers[0].id, TierId::new(0));
    assert_eq!(snapshot.tiers[0].price_per_byte, 450);
    assert_eq!(snapshot.tiers[0].delay, 1);
    assert_eq!(snapshot.tiers[1].id, TierId::new(1));
    assert_eq!(snapshot.tiers[1].price_per_byte, 90);
    assert_eq!(snapshot.tiers[1].delay, 2);
}

fn priority_lane_history(priority_price: u64, base_fee: u64, block_capacity: u64) -> SingleTierFeeHistory {
    let tiers = tiered_pricing::tx_pricing::priority_lane::priority_lane_tiers(
        priority_price,
        base_fee,
        1,
        2,
        block_capacity,
        block_capacity,
    );
    SingleTierFeeHistory::from_tiers(&tiers, 0)
}

#[test]
fn eip1559_priority_lane_selects_priority_before_normal() {
    // Base fee 10, priority multiplier 5, the whole block open to the priority lane.
    let history = priority_lane_history(50, 10, 0);
    let priority = test_tx(1, TierId::new(0), 40, 2_000);
    let normal = test_tx(2, TierId::new(1), 40, 400);
    let included = select_priority_lane_transactions(
        &[normal.clone(), priority.clone()],
        &history,
        0,
        80,
        50,
        10,
        1,
        2,
        80,
    );
    assert_eq!(included.iter().map(|tx| tx.id).collect::<Vec<_>>(), vec![priority.id, normal.id]);
}

#[test]
fn eip1559_priority_lane_capacity_cap_limits_priority_first_pass() {
    // A quarter of a 100-byte block is open to the priority lane.
    let history = priority_lane_history(50, 10, 0);
    let priority = test_tx(1, TierId::new(0), 40, 2_000);
    let normal = test_tx(2, TierId::new(1), 40, 400);
    let included = select_priority_lane_transactions(
        &[priority.clone(), normal.clone()],
        &history,
        0,
        100,
        50,
        10,
        1,
        2,
        25,
    );
    assert_eq!(included.len(), 1);
    assert_eq!(included[0].id, normal.id);
}

#[test]
fn naive_rb_eb_policy_initialises_with_two_tiers() {
    // total capacity 100, tier 1 configured at half of it.
    let tiers = initial_tiers(
        TierBlockSelectionPolicy::NaiveRbEbTwoTier,
        TierLane::Ranking,
        100,
        1000,
        1,
        50,
        100,
    );
    assert_eq!(tiers.len(), 2);
    assert_eq!(tiers[0].id, TierId::new(0));
    assert_eq!(tiers[1].id, TierId::new(1));
    assert_eq!(tiers[0].delay, 1);
    assert_eq!(tiers[1].delay, 1);
}

#[test]
fn overflow_retry_policy_exponential_backoff_caps_delay() {
    assert_eq!(retry_delay_slots(8, 3, 8, 0), 3);
    assert_eq!(retry_delay_slots(8, 3, 8, 1), 6);
    assert_eq!(retry_delay_slots(8, 3, 8, 2), 8);
    assert_eq!(retry_delay_slots(8, 3, 8, 5), 8);
}

fn timeboxed(id: u64, max_slots: u64) -> Transaction {
    tx(id, 10, 0, 500, UrgencyProfile::TimeBoxed { max_slots }, None, None, None, None, None)
}

#[test]
fn naive_rb_eb_tier_selection_uses_path_latency_for_utility() {
    let t = timeboxed(1, 25);
    let snapshot = PricingSnapshot {
        tiers: vec![quote(0, TierLane::Ranking, 1, 30), quote(1, TierLane::Ranking, 1, 5)],
    };
    let baseline = select_tier_for_tx(&t, &snapshot, TierSelectionDelayModel::TierDelay)
        .expect("tier selection should succeed");
    assert_eq!(baseline.0, TierId::new(1));

    let naive = select_tier_for_tx(
        &t,
        &snapshot,
        TierSelectionDelayModel::NaiveRbEbTwoTierPath { rb_path_latency: 20, eb_path_latency: 56 },
    )
    .expect("tier selection should succeed");
    assert_eq!(naive.0, TierId::new(0));
    assert_eq!(naive.3, 1);
}

#[test]
fn lane_path_plus_tier_delay_keeps_in_lane_delay_differentiation() {
    let t = timeboxed(2, 25);
    let snapshot = PricingSnapshot {
        tiers: vec![quote(0, TierLane::Ranking, 1, 30), quote(2, TierLane::Ranking, 10, 5)],
    };
    let selected = select_tier_for_tx(
        &t,
        &snapshot,
        TierSelectionDelayModel::LanePathPlusTierDelay { rb_path_latency: 20, eb_path_latency: 56 },
    )
    .expect("tier selection should succeed");
    assert_eq!(selected.0, TierId::new(0));
}

#[test]
fn lane_path_plus_tier_delay_supports_block_delay_units() {
    let t = timeboxed(3, 2);
    let snapshot = PricingSnapshot {
        tiers: vec![quote(0, TierLane::Ranking, 1, 30), quote(1, TierLane::Endorser, 1, 5)],
    };
    let selected = select_tier_for_tx(
        &t,
        &snapshot,
        TierSelectionDelayModel::LanePathPlusTierDelay { rb_path_latency: 1, eb_path_latency: 3 },
    )
    .expect("tier selection should succeed");
    assert_eq!(selected.0, TierId::new(0));
}

#[test]
fn continuous_policy_selects_single_best_lane_assignment() {
    let t = timeboxed(1, 3);
    let rb_snapshot = PricingSnapshot { tiers: vec![quote(0, TierLane::Ranking, 1, 20)] };
    let eb_snapshot = PricingSnapshot { tiers: vec![quote(0, TierLane::Endorser, 8, 1)] };
    let selected = select_best_lane_tier_for_tx(
        &t,
        &rb_snapshot,
        &eb_snapshot,
        TierSelectionDelayModel::TierDelay,
    )
    .expect("lane selection should succeed");
    assert_eq!(selected.block_kind, BlockKind::RankingBlock);
    assert_eq!(selected.tier_id, TierId::new(0));
}

use tiered_pricing::tx_pricing::config_rules::{
    RetryBandChecks, RetryPolicyChecks, TieredConfigChecks, TieredConfigError,
};

/// The facts of the default retry policy: three bands covering [0, 1].
fn default_retry_policy_checks() -> RetryPolicyChecks {
    let band = |max_attempts: u32, base_delay_slots: u64| RetryBandChecks {
        ratios_finite: true,
        ratios_in_unit_interval: true,
        min_below_max: true,
        max_attempts,
        base_delay_slots,
        starts_after_previous_end: false,
        starts_before_previous_end: false,
    };
    RetryPolicyChecks {
        max_delay_slots: 64,
        bands: vec![band(0, 0), band(2, 2), band(6, 2)],
        covers_unit_interval: true,
        last_band_ends_at_one: true,
    }
}

/// The facts of a valid shared configuration with four tiers, a delay
/// cadence of one block and a tier cadence of ten blocks.
fn test_config_checks() -> TieredConfigChecks {
    TieredConfigChecks {
        max_tiers: 4,
        tier_size_fractions_non_negative: vec![true, true, true, true],
        tier_size_fractions_sum_within_one: true,
        delay_update_frequency: Some(1),
        delay_update_period_slots: None,
        tier_update_frequency: Some(10),
        tier_update_period_slots: None,
        min_delay_ratio_at_least_one: true,
        min_delay_ratios_at_least_one: vec![],
        delay_increase_thresholds_positive: vec![],
        delay_decrease_prob_in_unit_interval: true,
        block_selection_policy: TierBlockSelectionPolicy::Shared,
        rb_tier0_reservation_fraction_valid: true,
        rb_target_utilisation_valid: true,
        rb_base_fee_change_denominator: None,
        rb_soft_reservation_fraction_valid: true,
        eb_total_capacity: None,
        separate_eb_pool: false,
        add_tier_fill_rate_threshold_valid: true,
        remove_tier_fill_rate_threshold_valid: true,
        remove_threshold_below_add: true,
        overflow_linear_fill_rate_cap_valid: true,
        dynamic_tier_sizing_alpha_valid: true,
        dynamic_tier_sizing_min_fraction_valid: true,
        lane_selection_backlog_delay_scale_valid: true,
        overflow_retry_policy: default_retry_policy_checks(),
    }
}

#[test]
fn tiered_config_rejects_cadence_duplicates_and_zero_slot_periods() {
    let mut config = test_config_checks();
    config.delay_update_frequency = None;
    config.tier_update_frequency = None;
    config.delay_update_period_slots = Some(0);
    assert_eq!(
        config.validate().map_err(|e| e.message()),
        Err("delay_update_period_slots must be >= 1 when set".to_string())
    );

    config.delay_update_period_slots = Some(1);
    config.tier_update_period_slots = Some(0);
    assert_eq!(
        config.validate().map_err(|e| e.message()),
        Err("tier_update_period_slots must be >= 1 when set".to_string())
    );

    config.tier_update_period_slots = Some(1);
    assert_eq!(config.validate(), Ok(()));

    config.delay_update_frequency = Some(1);
    assert_eq!(
        config.validate().map_err(|e| e.message()),
        Err("delay cadence duplicated: set only one of delay_update_frequency or delay_update_period_slots"
            .to_string())
    );
}

#[test]
fn continuous_policy_requires_eb_total_capacity() {
    let mut config = test_config_checks();
    config.block_selection_policy = TierBlockSelectionPolicy::ContinuousRbEb;
    config.eb_total_capacity = None;
    assert!(config.validate().is_err());

    config.separate_eb_pool = true;
    assert!(config.validate().is_ok());

    config.separate_eb_pool = false;
    config.eb_total_capacity = Some(200);
    assert!(config.validate().is_ok());
}

#[test]
fn overflow_retry_policy_default_is_valid_and_full_coverage() {
    assert_eq!(default_retry_policy_checks().validate(), Ok(()));
}

#[test]
fn overflow_retry_policy_validation_rejects_coverage_gaps() {
    // Bands [0, 0.5) and [0.6, 1]: the second starts after the first ends.
    let mut policy = default_retry_policy_checks();
    policy.bands.truncate(2);
    policy.bands[0].max_attempts = 1;
    policy.bands[0].base_delay_slots = 1;
    policy.bands[1].max_attempts = 1;
    policy.bands[1].base_delay_slots = 1;
    policy.bands[1].starts_after_previous_end = true;
    assert!(policy.validate().is_err());
}

// Further cases.

#[test]
fn config_errors_report_their_messages() {
    let mut config = test_config_checks();
    config.max_tiers = 0;
    assert_eq!(config.validate(), Err(TieredConfigError::MaxTiersZero));
    assert_eq!(TieredConfigError::MaxTiersZero.message(), "max_tiers must be at least 1");

    let mut config = test_config_checks();
    config.tier_size_fractions_non_negative = vec![true, true, true];
    assert_eq!(config.validate(), Err(TieredConfigError::FractionsTooFew));

    let mut config = test_config_checks();
    config.tier_size_fractions_non_negative = vec![true, true, true, true, false];
    assert_eq!(config.validate(), Ok(()));
    config.tier_size_fractions_non_negative = vec![true, false, true, true];
    assert_eq!(config.validate(), Err(TieredConfigError::FractionNegative));

    let mut config = test_config_checks();
    config.min_delay_ratios_at_least_one = vec![true, true];
    assert_eq!(config.validate(), Err(TieredConfigError::MinDelayRatiosTooFew));
    config.min_delay_ratios_at_least_one = vec![true, true, false];
    assert_eq!(config.validate(), Err(TieredConfigError::MinDelayRatiosBelowOne));
    config.min_delay_ratios_at_least_one = vec![true, true, true, false];
    assert_eq!(config.validate(), Ok(()));

    let mut config = test_config_checks();
    config.block_selection_policy = TierBlockSelectionPolicy::NaiveRbEbTwoTier;
    config.max_tiers = 1;
    assert_eq!(config.validate(), Err(TieredConfigError::NaiveTwoTierTooFewTiers));

    let mut config = test_config_checks();
    config.rb_base_fee_change_denominator = Some(0);
    assert_eq!(config.validate(), Err(TieredConfigError::ZeroRbBaseFeeChangeDenominator));

    let mut config = test_config_checks();
    config.overflow_retry_policy.bands[1].base_delay_slots = 0;
    let err = config.validate().unwrap_err();
    assert_eq!(
        err.message(),
        "overflow_retry_policy.bands[1] base_delay_slots must be >= 1 when max_attempts > 0"
    );
}

#[test]
fn retry_policy_errors_name_the_band() {
    assert_eq!(decimal(0), "0");
    assert_eq!(decimal(407), "407");
    assert_eq!(
        RetryPolicyError::CoverageGap { index: 12 }.message(),
        "overflow_retry_policy.bands has a coverage gap before index 12"
    );
    let mut policy = default_retry_policy_checks();
    policy.max_delay_slots = 0;
    assert_eq!(policy.validate(), Err(RetryPolicyError::ZeroMaxDelay));
    let mut policy = default_retry_policy_checks();
    policy.bands.clear();
    assert_eq!(policy.validate(), Err(RetryPolicyError::NoBands));
    let mut policy = default_retry_policy_checks();
    policy.bands[2].starts_before_previous_end = true;
    assert_eq!(policy.validate(), Err(RetryPolicyError::Overlap { index: 2 }));
}

#[test]
fn priority_lane_config_rules() {
    let ok = PriorityLaneConfigChecks {
        max_change_denominator: 8,
        target_utilisation_valid: true,
        priority_fee_multiplier_valid: true,
        priority_capacity_fraction_valid: true,
        priority_delay: 1,
        normal_delay: 2,
    };
    assert_eq!(ok.validate(), Ok(()));
    let same_delay = PriorityLaneConfigChecks { priority_delay: 2, ..ok };
    assert_eq!(same_delay.validate(), Err(PriorityLaneConfigError::PriorityDelayNotBelowNormal));
    assert_eq!(
        PriorityLaneConfigError::PriorityDelayNotBelowNormal.message(),
        "priority_delay must be lower than normal_delay"
    );
    let zero = PriorityLaneConfigChecks { max_change_denominator: 0, priority_delay: 5, ..ok };
    assert_eq!(zero.validate(), Err(PriorityLaneConfigError::ZeroMaxChangeDenominator));
}

#[test]
fn selected_tier_has_the_best_utility() {
    // Indifferent submitter worth 1000 over 10 bytes: utility = value - fee.
    let t = tx(5, 10, 0, 1000, UrgencyProfile::Indifferent, None, None, None, None, None);
    let snapshot = PricingSnapshot {
        tiers: vec![quote(0, TierLane::Ranking, 1, 30), quote(1, TierLane::Ranking, 4, 12), quote(2, TierLane::Ranking, 8, 20)],
    };
    let (id, _, fee, delay, price) =
        select_tier_for_tx(&t, &snapshot, TierSelectionDelayModel::TierDelay).expect("a tier is affordable");
    assert_eq!(id, TierId::new(1));
    assert_eq!((fee, delay, price), (120, 4, 12));
    // Too poor for any tier: nothing is selected.
    let poor = tx(6, 10, 0, 50, UrgencyProfile::Indifferent, None, None, None, None, None);
    assert!(select_tier_for_tx(&poor, &snapshot, TierSelectionDelayModel::TierDelay).is_none());
}

#[test]
fn synchronised_quotes_verify() {
    let tiers = vec![tier(0, TierLane::Ranking, 100, 3, 2, 11), tier(1, TierLane::Ranking, 100, 5, 6, 4)];
    let mut history = TierAssignmentHistory::from_tiers(&tiers, 10, TierLane::Ranking, 7);
    let quote_of = |t: &Tier, bytes: u64| QuotedAssignment {
        tier_id: t.id,
        version_created_slot: t.version_created_slot,
        posted_fee: 7 + t.price * bytes,
        delay_slots: t.delay,
        price_per_byte_at_assignment: t.price,
    };
    assert_eq!(history.verify_assignment(quote_of(&tiers[1], 10), 10), Ok(()));
    let repriced = vec![tier(0, TierLane::Ranking, 100, 9, 2, 13), tiers[1]];
    history.sync_with_tiers(&repriced, 9, TierLane::Ranking, 7);
    assert_eq!(history.verify_assignment(quote_of(&repriced[0], 10), 10), Ok(()));
    // The old version is retired but still known within the window.
    assert_eq!(history.verify_assignment(quote_of(&tiers[0], 10), 10), Ok(()));
    let mut wrong = quote_of(&repriced[0], 10);
    wrong.posted_fee += 1;
    assert_eq!(
        history.verify_assignment(wrong, 10),
        Err(TransactionRejectReason::InvalidQuotedAssignment)
    );
}

/// Block selection of a tiered pool with each tier's budget evaluated from
/// its capacity rule; `rb_reserved` is the RB reservation in bytes.
fn pool_select(
    txs: &[Arc<Transaction>],
    tiers: &[Tier],
    policy: TierBlockSelectionPolicy,
    block_kind: BlockKind,
    block_capacity: u64,
    total_capacity: u64,
    rb_reserved: u64,
    market_has_eb_pool: bool,
    from_eb_pool: bool,
) -> Vec<Arc<Transaction>> {
    let scale = if total_capacity == 0 { 0.0 } else { block_capacity as f64 / total_capacity as f64 };
    let budgets: Vec<u64> = fill_budget_rules(tiers, policy, block_kind, block_capacity, market_has_eb_pool)
        .into_iter()
        .map(|rule| match rule {
            CapacityRule::Fixed(bytes) => bytes,
            CapacityRule::Scaled(capacity) => (capacity as f64 * scale).round() as u64,
            CapacityRule::RbReserved => rb_reserved,
            CapacityRule::EbShare { tier_capacity, eb_capacity_sum, .. } => {
                ((tier_capacity as f64 / eb_capacity_sum as f64) * block_capacity as f64).round() as u64
            }
        })
        .collect();
    select_transactions_from_pool(
        txs,
        tiers,
        &budgets,
        TierAssignmentSemantics::NeverStale,
        policy,
        block_kind,
        block_capacity,
        false,
        0,
        from_eb_pool,
        from_eb_pool,
    )
}

#[test]
fn naive_rb_eb_policy_routes_transactions_to_expected_block_kind() {
    let tiers = vec![tier(0, TierLane::Ranking, 50, 0, 1, 10), tier(1, TierLane::Ranking, 50, 0, 2, 10)];
    let txs = vec![test_tx(1, TierId::new(0), 10, 200), test_tx(2, TierId::new(1), 10, 200)];
    let naive = TierBlockSelectionPolicy::NaiveRbEbTwoTier;
    let rb = pool_select(&txs, &tiers, naive, BlockKind::RankingBlock, 100, 100, 100, false, false);
    assert_eq!(rb.len(), 1);
    assert_eq!(rb[0].tier_preference, Some(TierId::new(0)));
    let eb = pool_select(&txs, &tiers, naive, BlockKind::EndorserBlock, 100, 100, 100, false, false);
    assert_eq!(eb.len(), 1);
    assert_eq!(eb[0].tier_preference, Some(TierId::new(1)));
}

#[test]
fn naive_rb_eb_policy_uses_full_block_capacity_per_block_kind() {
    let tiers = vec![tier(0, TierLane::Ranking, 50, 0, 1, 10), tier(1, TierLane::Ranking, 50, 0, 2, 10)];
    let txs = vec![test_tx(1, TierId::new(0), 60, 1_000)];
    let rb = pool_select(
        &txs,
        &tiers,
        TierBlockSelectionPolicy::NaiveRbEbTwoTier,
        BlockKind::RankingBlock,
        100,
        100,
        100,
        false,
        false,
    );
    assert_eq!(rb.len(), 1);
    assert_eq!(rb[0].id, TransactionId::new(1));
}

#[test]
fn rb_tier0_reserved_policy_limits_rb_capacity() {
    let tiers = vec![tier(0, TierLane::Ranking, 30, 0, 1, 10), tier(1, TierLane::Ranking, 70, 0, 1, 10)];
    let txs = vec![
        test_tx(1, TierId::new(0), 20, 500),
        test_tx(2, TierId::new(0), 20, 500),
        test_tx(3, TierId::new(1), 60, 1_000),
    ];
    let reserved = TierBlockSelectionPolicy::RbTier0Reserved;
    // A 0.3 reservation of a 100-byte ranking block is 30 bytes.
    let rb = pool_select(&txs, &tiers, reserved, BlockKind::RankingBlock, 100, 100, 30, false, false);
    assert_eq!(rb.len(), 1);
    assert_eq!(rb[0].tier_preference, Some(TierId::new(0)));
    let eb = pool_select(&txs, &tiers, reserved, BlockKind::EndorserBlock, 100, 100, 30, false, false);
    assert_eq!(eb.len(), 1);
    assert_eq!(eb[0].tier_preference, Some(TierId::new(1)));
}

fn lane_tx(id: u64, rb: Option<(u64, u64)>, eb: Option<(u64, u64)>, kind: BlockKind, input_id: u64) -> Transaction {
    Transaction {
        id: TransactionId::new(id),
        actor_id: ActorId::new(0),
        shard: 0,
        bytes: 10,
        submission_slot: 0,
        value: 1_000,
        urgency: UrgencyProfile::Indifferent,
        posted_fee: rb.map(|(_, fee)| fee),
        tier_preference: rb.map(|(tier, _)| TierId::new(tier)),
        tier_version_created_slot: rb.map(|_| 0),
        tier_delay_slots: rb.map(|_| 1),
        tier_price_per_byte_at_assignment: rb.map(|_| 100),
        eb_tier_preference: eb.map(|(tier, _)| TierId::new(tier)),
        eb_tier_version_created_slot: eb.map(|_| 0),
        eb_posted_fee: eb.map(|(_, fee)| fee),
        eb_tier_delay_slots: eb.map(|_| 1),
        eb_tier_price_per_byte_at_assignment: eb.map(|_| 100),
        assigned_block_kind: Some(kind),
        mempool_entry_slot: None,
        mempool_entry_rb_index: None,
        input_id,
        overcollateralization_factor: 0,
        urgency_component_index: None,
    }
}

#[test]
fn continuous_policy_enforces_single_lane_inclusion() {
    // Continuous RB/EB pricing with a 100-byte pool per lane, new tiers at price 100.
    let continuous = TierBlockSelectionPolicy::ContinuousRbEb;
    let rb_tiers = initial_tiers(continuous, TierLane::Ranking, 100, 100, 1, 0, 100);
    let eb_tiers = initial_tiers(continuous, TierLane::Endorser, 100, 100, 1, 0, 100);
    let rb_tx = Arc::new(lane_tx(1, Some((0, 1_000)), None, BlockKind::RankingBlock, 11));
    let eb_tx = Arc::new(lane_tx(2, None, Some((0, 1_000)), BlockKind::EndorserBlock, 22));
    let txs = vec![rb_tx.clone(), eb_tx.clone()];
    let rb_selected = pool_select(&txs, &rb_tiers, continuous, BlockKind::RankingBlock, 100, 100, 100, true, false);
    assert_eq!(rb_selected.len(), 1);
    assert_eq!(rb_selected[0].id, rb_tx.id);
    let eb_selected = pool_select(&txs, &eb_tiers, continuous, BlockKind::EndorserBlock, 100, 100, 100, true, true);
    assert_eq!(eb_selected.len(), 1);
    assert_eq!(eb_selected[0].id, eb_tx.id);
}

#[test]
fn single_pool_endorser_assignment_uses_primary_fields() {
    // Naive two-tier layout, tier 1 at half of a 100-byte pool, new tiers at price 100.
    let naive = TierBlockSelectionPolicy::NaiveRbEbTwoTier;
    let tiers = initial_tiers(naive, TierLane::Ranking, 100, 100, 1, 50, 100);
    let history = TierAssignmentHistory::from_tiers(&tiers, 10, TierLane::Ranking, 0);
    let tx = Arc::new(lane_tx(1, Some((1, 1_000)), None, BlockKind::EndorserBlock, 1));
    assert_eq!(verify_preassigned_transaction(&tx, false, naive, &history, None), Ok(()));
    let rb_selected = pool_select(&[tx.clone()], &tiers, naive, BlockKind::RankingBlock, 100, 100, 100, false, false);
    assert!(rb_selected.is_empty());
    let eb_selected = pool_select(&[tx.clone()], &tiers, naive, BlockKind::EndorserBlock, 100, 100, 100, false, false);
    assert_eq!(eb_selected.len(), 1);
    assert_eq!(eb_selected[0].id, tx.id);
}

#[test]
fn continuous_policy_rejects_dual_lane_preassignment() {
    let continuous = TierBlockSelectionPolicy::ContinuousRbEb;
    let rb_tiers = initial_tiers(continuous, TierLane::Ranking, 100, 100, 1, 20, 100);
    let eb_tiers = initial_tiers(continuous, TierLane::Endorser, 100, 100, 1, 20, 100);
    let rb_history = TierAssignmentHistory::from_tiers(&rb_tiers, 10, TierLane::Ranking, 0);
    let eb_history = TierAssignmentHistory::from_tiers(&eb_tiers, 10, TierLane::Endorser, 0);
    let tx = lane_tx(1, Some((0, 1_000)), Some((0, 1_000)), BlockKind::RankingBlock, 1);
    assert_eq!(
        verify_preassigned_transaction(&tx, true, continuous, &rb_history, Some(&eb_history)),
        Err(TransactionRejectReason::InvalidQuotedAssignment)
    );
}

#[test]
fn every_config_rule_reports_its_error() {
    let cases: Vec<(Box<dyn Fn(&mut TieredConfigChecks)>, TieredConfigError)> = vec![
        (Box::new(|c| c.max_tiers = 0), TieredConfigError::MaxTiersZero),
        (Box::new(|c| c.tier_size_fractions_non_negative.pop().map(|_| ()).unwrap_or(())), TieredConfigError::FractionsTooFew),
        (Box::new(|c| c.tier_size_fractions_non_negative[3] = false), TieredConfigError::FractionNegative),
        (Box::new(|c| c.tier_size_fractions_sum_within_one = false), TieredConfigError::FractionsSumAboveOne),
        (Box::new(|c| c.delay_update_period_slots = Some(3)), TieredConfigError::DelayCadenceDuplicated),
        (Box::new(|c| c.delay_update_frequency = None), TieredConfigError::DelayCadenceMissing),
        (Box::new(|c| c.delay_update_frequency = Some(0)), TieredConfigError::ZeroDelayUpdateFrequency),
        (Box::new(|c| { c.delay_update_frequency = None; c.delay_update_period_slots = Some(0) }), TieredConfigError::ZeroDelayUpdatePeriod),
        (Box::new(|c| c.tier_update_period_slots = Some(3)), TieredConfigError::TierCadenceDuplicated),
        (Box::new(|c| c.tier_update_frequency = None), TieredConfigError::TierCadenceMissing),
        (Box::new(|c| c.tier_update_frequency = Some(0)), TieredConfigError::ZeroTierUpdateFrequency),
        (Box::new(|c| { c.tier_update_frequency = None; c.tier_update_period_slots = Some(0) }), TieredConfigError::ZeroTierUpdatePeriod),
        (Box::new(|c| c.min_delay_ratio_at_least_one = false), TieredConfigError::MinDelayRatioBelowOne),
        (Box::new(|c| c.min_delay_ratios_at_least_one = vec![true]), TieredConfigError::MinDelayRatiosTooFew),
        (Box::new(|c| c.min_delay_ratios_at_least_one = vec![true, false, true]), TieredConfigError::MinDelayRatiosBelowOne),
        (Box::new(|c| c.delay_increase_thresholds_positive = vec![true, true]), TieredConfigError::DelayIncreaseThresholdsTooFew),
        (Box::new(|c| c.delay_increase_thresholds_positive = vec![false, true, true]), TieredConfigError::DelayIncreaseThresholdsNotPositive),
        (Box::new(|c| c.delay_decrease_prob_in_unit_interval = false), TieredConfigError::DelayDecreaseProbOutOfRange),
        (Box::new(|c| { c.block_selection_policy = TierBlockSelectionPolicy::NaiveRbEbTwoTier; c.max_tiers = 1 }), TieredConfigError::NaiveTwoTierTooFewTiers),
        (Box::new(|c| { c.block_selection_policy = TierBlockSelectionPolicy::RbTier0Reserved; c.max_tiers = 1 }), TieredConfigError::RbTier0ReservedTooFewTiers),
        (Box::new(|c| { c.block_selection_policy = TierBlockSelectionPolicy::RbTier0Reserved; c.rb_tier0_reservation_fraction_valid = false }), TieredConfigError::RbTier0ReservationFractionInvalid),
        (Box::new(|c| c.rb_target_utilisation_valid = false), TieredConfigError::RbTargetUtilisationInvalid),
        (Box::new(|c| c.rb_base_fee_change_denominator = Some(0)), TieredConfigError::ZeroRbBaseFeeChangeDenominator),
        (Box::new(|c| c.rb_soft_reservation_fraction_valid = false), TieredConfigError::RbSoftReservationFractionInvalid),
        (Box::new(|c| c.block_selection_policy = TierBlockSelectionPolicy::ContinuousRbEbFallback), TieredConfigError::ContinuousWithoutSeparateEbPool),
        (Box::new(|c| c.add_tier_fill_rate_threshold_valid = false), TieredConfigError::AddTierFillRateThresholdInvalid),
        (Box::new(|c| c.remove_tier_fill_rate_threshold_valid = false), TieredConfigError::RemoveTierFillRateThresholdInvalid),
        (Box::new(|c| c.remove_threshold_below_add = false), TieredConfigError::RemoveThresholdNotBelowAdd),
        (Box::new(|c| c.overflow_linear_fill_rate_cap_valid = false), TieredConfigError::OverflowLinearFillRateCapInvalid),
        (Box::new(|c| c.dynamic_tier_sizing_alpha_valid = false), TieredConfigError::DynamicTierSizingAlphaInvalid),
        (Box::new(|c| c.dynamic_tier_sizing_min_fraction_valid = false), TieredConfigError::DynamicTierSizingMinFractionInvalid),
        (Box::new(|c| c.lane_selection_backlog_delay_scale_valid = false), TieredConfigError::LaneSelectionBacklogDelayScaleInvalid),
        (Box::new(|c| c.overflow_retry_policy.covers_unit_interval = false), TieredConfigError::OverflowRetryPolicy(RetryPolicyError::IncompleteCoverage)),
    ];
    for (change, expected) in cases {
        let mut config = test_config_checks();
        change(&mut config);
        assert_eq!(config.validate(), Err(expected));
        assert!(!expected.message().is_empty());
    }
}

#[test]
fn every_retry_band_rule_reports_its_error() {
    let cases: Vec<(Box<dyn Fn(&mut RetryPolicyChecks)>, RetryPolicyError)> = vec![
        (Box::new(|p| p.bands[1].ratios_finite = false), RetryPolicyError::RatiosNotFinite { index: 1 }),
        (Box::new(|p| p.bands[0].ratios_in_unit_interval = false), RetryPolicyError::RatiosOutOfRange { index: 0 }),
        (Box::new(|p| p.bands[2].min_below_max = false), RetryPolicyError::RatiosNotIncreasing { index: 2 }),
        (Box::new(|p| p.bands[2].base_delay_slots = 0), RetryPolicyError::ZeroBaseDelay { index: 2 }),
        (Box::new(|p| p.bands[1].starts_after_previous_end = true), RetryPolicyError::CoverageGap { index: 1 }),
        (Box::new(|p| p.last_band_ends_at_one = false), RetryPolicyError::OpenEnded),
    ];
    for (change, expected) in cases {
        let mut policy = default_retry_policy_checks();
        change(&mut policy);
        assert_eq!(policy.validate(), Err(expected));
    }
    assert_eq!(
        RetryPolicyError::RatiosOutOfRange { index: 0 }.message(),
        "overflow_retry_policy.bands[0] ratios must be in [0, 1]"
    );
    assert_eq!(
        RetryPolicyError::Overlap { index: 3 }.message(),
        "overflow_retry_policy.bands must be sorted and non-overlapping (issue at index 3)"
    );
}
