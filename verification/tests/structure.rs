use tiered_pricing::tx_pricing::cadence::boundary_cap_indices;
use tiered_pricing::tx_pricing::cadence::value_for_lane;
use tiered_pricing::tx_pricing::priority_lane::checked_bytes_preferring;
use std::sync::Arc;

use tiered_pricing::model::{ActorId, TierId, Transaction, TransactionId, UrgencyProfile};
use tiered_pricing::tx_pricing::cadence::{apply_block_repricing, CadenceConfig, CadenceCounters};
use tiered_pricing::tx_pricing::capacity::{
    effective_capacity_rule, eb_capacity_sum, fill_budget_rules, fill_rate_capacity_rules,
    CapacityRule,
};
use tiered_pricing::tx_pricing::inclusion::clone_transaction_pub;
use tiered_pricing::tx_pricing::pool::{
    bucket_indices, fill_pool, select_transactions_from_pool, tier_usage,
};
use tiered_pricing::tx_pricing::tiers::{
    initial_tiers, next_tier_id, push_new_tier, snapshot_of_tiers, tier_size_step, tiers_of_lane,
    FillSignal, TierSizeStep,
};
use tiered_pricing::tx_pricing::{
    BlockKind, Tier, TierAssignmentSemantics, TierBlockSelectionPolicy, TierLane,
};

fn tier(id: u64, lane: TierLane, capacity: u64, delay: u64, price: u64) -> Tier {
    Tier {
        id: TierId::new(id),
        lane,
        capacity,
        version_created_slot: 0,
        delay,
        price,
        used_capacity: 0,
        tx_count: 0,
    }
}

fn assigned_tx(id: u64, tier: u64, bytes: u64, submission_slot: u64, price: u64) -> Arc<Transaction> {
    Arc::new(Transaction {
        id: TransactionId::new(id),
        actor_id: ActorId::new(0),
        shard: 0,
        bytes,
        submission_slot,
        value: 1_000_000,
        urgency: UrgencyProfile::Indifferent,
        posted_fee: Some(price * bytes),
        tier_preference: Some(TierId::new(tier)),
        tier_version_created_slot: Some(0),
        tier_delay_slots: Some(1),
        tier_price_per_byte_at_assignment: Some(price),
        eb_tier_preference: None,
        eb_tier_version_created_slot: None,
        eb_posted_fee: None,
        eb_tier_delay_slots: None,
        eb_tier_price_per_byte_at_assignment: None,
        assigned_block_kind: None,
        mempool_entry_slot: None,
        mempool_entry_rb_index: None,
        input_id: id,
        overcollateralization_factor: 0,
        urgency_component_index: None,
    })
}

fn slot_cadence(delay_period: u64, tier_period: u64) -> CadenceConfig {
    CadenceConfig {
        delay_update_frequency: None,
        delay_update_period_slots: Some(delay_period),
        tier_update_frequency: None,
        tier_update_period_slots: Some(tier_period),
    }
}

#[test]
fn slot_based_cadence_triggers_at_slot_intervals() {
    let cadence = slot_cadence(5, 7);
    let mut counters = CadenceCounters::new();
    let shared = TierBlockSelectionPolicy::Shared;
    let rb = BlockKind::RankingBlock;
    let c = counters.advance(shared, rb, 1, cadence);
    assert!(!c.delay_update_triggered);
    assert!(!c.tier_update_triggered);
    let c = counters.advance(shared, rb, 4, cadence);
    assert!(!c.delay_update_triggered);
    assert!(!c.tier_update_triggered);
    let c = counters.advance(shared, rb, 5, cadence);
    assert!(c.delay_update_triggered);
    assert!(!c.tier_update_triggered);
    let c = counters.advance(shared, rb, 7, cadence);
    assert!(!c.delay_update_triggered);
    assert!(c.tier_update_triggered);
    let c = counters.advance(shared, rb, 10, cadence);
    assert!(c.delay_update_triggered);
    assert!(!c.tier_update_triggered);
}

#[test]
fn block_count_cadence_fallback_is_unchanged_when_slot_mode_unset() {
    let cadence = CadenceConfig {
        delay_update_frequency: Some(2),
        delay_update_period_slots: None,
        tier_update_frequency: Some(3),
        tier_update_period_slots: None,
    };
    let mut counters = CadenceCounters::new();
    let shared = TierBlockSelectionPolicy::Shared;
    let rb = BlockKind::RankingBlock;
    let first = counters.advance(shared, rb, 100, cadence);
    assert!(!first.delay_update_triggered);
    assert!(!first.tier_update_triggered);
    let second = counters.advance(shared, rb, 200, cadence);
    assert!(second.delay_update_triggered);
    assert!(!second.tier_update_triggered);
    let third = counters.advance(shared, rb, 300, cadence);
    assert!(!third.delay_update_triggered);
    assert!(third.tier_update_triggered);
}

#[test]
fn reserved_layout_counts_endorser_blocks_only() {
    let cadence = CadenceConfig {
        delay_update_frequency: Some(2),
        delay_update_period_slots: None,
        tier_update_frequency: Some(2),
        tier_update_period_slots: None,
    };
    let mut counters = CadenceCounters::new();
    let reserved = TierBlockSelectionPolicy::RbTier0Reserved;
    let c = counters.advance(reserved, BlockKind::RankingBlock, 1, cadence);
    assert!(!c.tier_update_triggered);
    let c = counters.advance(reserved, BlockKind::RankingBlock, 2, cadence);
    assert!(!c.tier_update_triggered);
    let c = counters.advance(reserved, BlockKind::EndorserBlock, 3, cadence);
    assert!(!c.tier_update_triggered);
    let c = counters.advance(reserved, BlockKind::EndorserBlock, 4, cadence);
    assert!(c.tier_update_triggered);
    assert_eq!(counters.block_count, 4);
    assert_eq!(counters.eb_block_count, 2);
    assert_eq!(counters.last_tier_update_slot, Some(4));
    let naive = counters.advance(TierBlockSelectionPolicy::NaiveRbEbTwoTier, BlockKind::EndorserBlock, 5, cadence);
    assert!(!naive.delay_update_triggered && !naive.tier_update_triggered);
}

#[test]
fn naive_policy_reprices_only_the_active_lane() {
    let mut tiers = vec![tier(0, TierLane::Ranking, 50, 1, 100), tier(1, TierLane::Endorser, 50, 1, 100)];
    tiers[0].used_capacity = 30;
    tiers[1].tx_count = 2;
    apply_block_repricing(
        &mut tiers,
        &[112, 90],
        TierBlockSelectionPolicy::NaiveRbEbTwoTier,
        BlockKind::RankingBlock,
        23,
    );
    assert_eq!(tiers[0].price, 112);
    assert_eq!(tiers[0].version_created_slot, 23);
    assert_eq!(tiers[1].price, 100);
    assert_eq!(tiers[1].version_created_slot, 0);
    assert_eq!(tiers[0].used_capacity, 0);
    assert_eq!(tiers[1].tx_count, 0);
}

#[test]
fn unchanged_price_keeps_the_tier_version() {
    let mut tiers = vec![tier(0, TierLane::Ranking, 50, 1, 100)];
    apply_block_repricing(&mut tiers, &[100], TierBlockSelectionPolicy::Shared, BlockKind::RankingBlock, 9);
    assert_eq!(tiers[0].version_created_slot, 0);
    apply_block_repricing(&mut tiers, &[], TierBlockSelectionPolicy::Shared, BlockKind::RankingBlock, 9);
    assert_eq!(tiers[0].price, 100);
}

#[test]
fn next_tier_id_is_one_past_the_largest() {
    let tiers = vec![tier(0, TierLane::Ranking, 0, 1, 1), tier(3, TierLane::Ranking, 0, 1, 1), tier(1, TierLane::Ranking, 0, 1, 1)];
    assert_eq!(next_tier_id(&tiers), TierId::new(4));
    assert_eq!(next_tier_id(&[]), TierId::new(1));
    assert_eq!(next_tier_id(&[tier(u64::MAX, TierLane::Ranking, 0, 1, 1)]), TierId::new(u64::MAX));
}

#[test]
fn tier_size_step_decisions() {
    // Shared layout: price thresholds remove 100, add 5000.
    assert_eq!(tier_size_step(0, false, 4, 50, 100, 5000, None), TierSizeStep::Skip);
    assert_eq!(tier_size_step(1, false, 4, 50, 100, 5000, None), TierSizeStep::Rebalance);
    assert_eq!(tier_size_step(2, false, 4, 50, 100, 5000, None), TierSizeStep::Remove);
    assert_eq!(tier_size_step(2, false, 4, 6000, 100, 5000, None), TierSizeStep::Add { boundary_index: 1 });
    assert_eq!(tier_size_step(4, false, 4, 6000, 100, 5000, None), TierSizeStep::Rebalance);
    // Reserved layout keeps tier 0 and one EB tier.
    assert_eq!(tier_size_step(1, true, 4, 50, 100, 5000, None), TierSizeStep::Skip);
    assert_eq!(tier_size_step(2, true, 4, 50, 100, 5000, None), TierSizeStep::Rebalance);
    assert_eq!(tier_size_step(3, true, 4, 50, 100, 5000, None), TierSizeStep::Remove);
    assert_eq!(tier_size_step(2, true, 4, 6000, 100, 5000, None), TierSizeStep::Add { boundary_index: 0 });
    // A fill signal replaces the price thresholds.
    let signal = FillSignal { below_remove_threshold: false, above_add_threshold: true };
    assert_eq!(tier_size_step(2, false, 4, 50, 100, 5000, Some(signal)), TierSizeStep::Add { boundary_index: 1 });
}

#[test]
fn push_new_tier_appends_a_fresh_slower_tier() {
    let mut tiers = vec![tier(0, TierLane::Endorser, 100, 4, 10), tier(2, TierLane::Endorser, 0, 8, 10)];
    push_new_tier(&mut tiers, 0, 0, 41);
    assert_eq!(tiers.len(), 3);
    assert_eq!(tiers[2].id, TierId::new(3));
    assert_eq!(tiers[2].lane, TierLane::Endorser);
    assert_eq!(tiers[2].delay, 1);
    assert_eq!(tiers[2].price, 1);
    assert_eq!(tiers[2].version_created_slot, 41);
    assert_eq!(tiers[2].capacity, 0);
}

#[test]
fn initial_tiers_for_each_policy() {
    let shared = initial_tiers(TierBlockSelectionPolicy::Shared, TierLane::Endorser, 100, 0, 20, 0, 0);
    assert_eq!(shared.len(), 1);
    assert_eq!((shared[0].id, shared[0].lane, shared[0].capacity, shared[0].price), (TierId::new(0), TierLane::Endorser, 100, 1));
    let continuous = initial_tiers(TierBlockSelectionPolicy::ContinuousRbEb, TierLane::Endorser, 100, 7, 20, 0, 0);
    assert_eq!(continuous[0].id, TierId::new(1));
    let naive = initial_tiers(TierBlockSelectionPolicy::NaiveRbEbTwoTier, TierLane::Ranking, 100, 7, 0, 150, 0);
    assert_eq!((naive[0].capacity, naive[1].capacity), (0, 100));
    assert_eq!((naive[0].delay, naive[1].delay), (0, 1));
    let reserved = initial_tiers(TierBlockSelectionPolicy::RbTier0Reserved, TierLane::Ranking, 100, 7, 3, 0, 30);
    assert_eq!((reserved[0].capacity, reserved[1].capacity), (30, 100));
    assert_eq!((reserved[0].lane, reserved[1].lane), (TierLane::Ranking, TierLane::Endorser));
}

#[test]
fn lane_views() {
    let tiers = vec![tier(0, TierLane::Ranking, 10, 1, 5), tier(1, TierLane::Endorser, 20, 2, 6), tier(2, TierLane::Endorser, 30, 3, 7)];
    let eb = tiers_of_lane(&tiers, TierLane::Endorser);
    assert_eq!(eb.iter().map(|t| t.id).collect::<Vec<_>>(), vec![TierId::new(1), TierId::new(2)]);
    let snapshot = snapshot_of_tiers(&tiers, 150);
    assert_eq!(snapshot.tiers.len(), 3);
    assert_eq!(snapshot.tiers[2].price_per_byte, 7);
    assert_eq!(snapshot.tiers[2].base_fee, 150);
    assert_eq!(snapshot.tiers[1].delay, 2);
}

#[test]
fn capacity_rules_follow_the_policy() {
    let tiers = vec![tier(0, TierLane::Ranking, 30, 1, 5), tier(1, TierLane::Endorser, 20, 2, 6), tier(2, TierLane::Endorser, 60, 3, 7)];
    assert_eq!(eb_capacity_sum(&tiers), 80);
    let reserved_eb = fill_budget_rules(&tiers, TierBlockSelectionPolicy::RbTier0Reserved, BlockKind::EndorserBlock, 1000, false);
    assert_eq!(reserved_eb[1], CapacityRule::EbShare { tier_capacity: 20, eb_capacity_sum: 80, rounded: true });
    let reserved_rb = fill_budget_rules(&tiers, TierBlockSelectionPolicy::RbTier0Reserved, BlockKind::RankingBlock, 1000, false);
    assert_eq!(reserved_rb[0], CapacityRule::RbReserved);
    let shared = fill_budget_rules(&tiers, TierBlockSelectionPolicy::Shared, BlockKind::RankingBlock, 1000, false);
    assert_eq!(shared[2], CapacityRule::Scaled(60));
    let naive_rates = fill_rate_capacity_rules(&tiers, TierBlockSelectionPolicy::NaiveRbEbTwoTier, BlockKind::RankingBlock, 1000, false);
    assert_eq!(naive_rates[0], CapacityRule::Fixed(1000));
    assert_eq!(naive_rates[1], CapacityRule::Fixed(0));
    let continuous_rates = fill_rate_capacity_rules(&tiers, TierBlockSelectionPolicy::ContinuousRbEb, BlockKind::RankingBlock, 1000, true);
    assert_eq!(continuous_rates[0], CapacityRule::Fixed(30));
    assert_eq!(continuous_rates[1], CapacityRule::Fixed(0));
    assert_eq!(
        effective_capacity_rule(&tiers, TierId::new(0), TierBlockSelectionPolicy::ContinuousRbEb, BlockKind::RankingBlock, 1000, 100, false, true),
        Some((CapacityRule::Fixed(30), true))
    );
    assert_eq!(
        effective_capacity_rule(&tiers, TierId::new(2), TierBlockSelectionPolicy::Shared, BlockKind::RankingBlock, 1000, 100, true, false),
        Some((CapacityRule::Scaled(100), false))
    );
    assert_eq!(
        effective_capacity_rule(&tiers, TierId::new(7), TierBlockSelectionPolicy::Shared, BlockKind::RankingBlock, 1000, 100, false, false),
        None
    );
}

#[test]
fn pool_fill_respects_budgets_and_order() {
    let tiers = vec![tier(0, TierLane::Ranking, 50, 1, 10), tier(1, TierLane::Ranking, 50, 4, 5)];
    let txs = vec![
        assigned_tx(1, 1, 30, 2, 5),
        assigned_tx(2, 0, 30, 1, 10),
        assigned_tx(3, 0, 30, 0, 10),
        assigned_tx(4, 1, 20, 1, 5),
    ];
    let idx = bucket_indices(&txs, &tiers, TierAssignmentSemantics::NeverStale, false, false);
    assert_eq!(idx, vec![Some(1), Some(0), Some(0), Some(1)]);
    // Allocation: tier 0 takes tx 3 (oldest) within its 50-byte budget; tier 1 takes tx 4 then tx 1.
    let included = fill_pool(&txs, &idx, &tiers, &[50, 50], TierBlockSelectionPolicy::Shared, BlockKind::RankingBlock, 100, false, 0);
    assert_eq!(included.iter().map(|t| t.id.0).collect::<Vec<_>>(), vec![3, 4, 1]);
    // Priority ordering: tier 0 fills the block first.
    let included = fill_pool(&txs, &idx, &tiers, &[50, 50], TierBlockSelectionPolicy::Shared, BlockKind::RankingBlock, 70, true, 0);
    assert_eq!(included.iter().map(|t| t.id.0).collect::<Vec<_>>(), vec![3, 2]);
    let total: u64 = included.iter().map(|t| t.bytes).sum();
    assert!(total <= 70);
}

#[test]
fn soft_reservation_spills_to_slower_ranking_tiers() {
    let tiers = vec![tier(0, TierLane::Ranking, 10, 1, 10), tier(1, TierLane::Ranking, 10, 4, 5)];
    let txs = vec![assigned_tx(1, 0, 10, 0, 10), assigned_tx(2, 1, 25, 1, 5)];
    // Tier 0 reserves 40 bytes but uses 10; the 30 left spill to tier 1 (10 + 30 >= 25).
    let included = select_transactions_from_pool(
        &txs,
        &tiers,
        &[10, 10],
        TierAssignmentSemantics::NeverStale,
        TierBlockSelectionPolicy::ContinuousRbEb,
        BlockKind::RankingBlock,
        100,
        false,
        40,
        true,
        false,
    );
    assert_eq!(included.iter().map(|t| t.id.0).collect::<Vec<_>>(), vec![1, 2]);
    // Without the reservation tier 1 keeps its own budget of 10.
    let included = select_transactions_from_pool(
        &txs,
        &tiers,
        &[10, 10],
        TierAssignmentSemantics::NeverStale,
        TierBlockSelectionPolicy::Shared,
        BlockKind::RankingBlock,
        100,
        false,
        40,
        true,
        false,
    );
    assert_eq!(included.iter().map(|t| t.id.0).collect::<Vec<_>>(), vec![1]);
}

#[test]
fn tier_usage_counts_bytes_per_tier() {
    let tiers = vec![tier(0, TierLane::Ranking, 50, 1, 10), tier(1, TierLane::Ranking, 50, 4, 5)];
    let txs = vec![assigned_tx(1, 1, 30, 2, 5), assigned_tx(2, 0, 20, 1, 10), assigned_tx(3, 1, 5, 0, 5), assigned_tx(4, 7, 5, 0, 5)];
    let (used, counts) = tier_usage(&txs, &tiers, false, false);
    assert_eq!(used, vec![20, 35]);
    assert_eq!(counts, vec![1, 2]);
}

#[test]
fn cloned_transactions_keep_their_fields() {
    let t = assigned_tx(9, 1, 30, 2, 5);
    let c = clone_transaction_pub(&t);
    assert_eq!(c.id, t.id);
    assert_eq!(c.bytes, 30);
    assert_eq!(c.tier_preference, Some(TierId::new(1)));
}

#[test]
fn boundary_cap_indices_follow_the_policy() {
    let tiers = vec![tier(0, TierLane::Ranking, 10, 1, 5), tier(1, TierLane::Endorser, 20, 2, 6), tier(2, TierLane::Endorser, 30, 3, 7)];
    assert_eq!(boundary_cap_indices(&tiers, TierBlockSelectionPolicy::Shared, BlockKind::RankingBlock), vec![0, 1, 2]);
    assert_eq!(boundary_cap_indices(&tiers, TierBlockSelectionPolicy::ContinuousRbEb, BlockKind::EndorserBlock), vec![1, 2]);
    assert_eq!(boundary_cap_indices(&tiers, TierBlockSelectionPolicy::RbTier0Reserved, BlockKind::EndorserBlock), vec![1, 2]);
    assert!(boundary_cap_indices(&tiers, TierBlockSelectionPolicy::RbTier0Reserved, BlockKind::RankingBlock).is_empty());
    assert!(boundary_cap_indices(&tiers, TierBlockSelectionPolicy::NaiveRbEbTwoTier, BlockKind::EndorserBlock).is_empty());
}

#[test]
fn lane_settings_and_cadence_slots() {
    assert_eq!(value_for_lane(TierLane::Ranking, Some(4), 8), 4);
    assert_eq!(value_for_lane(TierLane::Ranking, None, 8), 8);
    assert_eq!(value_for_lane(TierLane::Endorser, Some(4), 8), 8);
    assert_eq!(slot_cadence(5, 7).tier_update_cadence_slots(), 7);
    let by_blocks = CadenceConfig {
        delay_update_frequency: Some(1),
        delay_update_period_slots: None,
        tier_update_frequency: Some(10),
        tier_update_period_slots: None,
    };
    assert_eq!(by_blocks.tier_update_cadence_slots(), 10);
    let unset = CadenceConfig { tier_update_frequency: None, ..by_blocks };
    assert_eq!(unset.tier_update_cadence_slots(), 1);
}

#[test]
fn checked_byte_totals() {
    let txs = vec![assigned_tx(1, 0, 30, 0, 1), assigned_tx(2, 1, 20, 0, 1), assigned_tx(3, 0, 5, 0, 1)];
    assert_eq!(checked_bytes_preferring(&txs, Some(TierId::new(0))), Some(35));
    assert_eq!(checked_bytes_preferring(&txs, Some(TierId::new(1))), Some(20));
    assert_eq!(checked_bytes_preferring(&txs, None), Some(55));
    let huge = vec![assigned_tx(1, 0, u64::MAX, 0, 0), assigned_tx(2, 0, 1, 0, 0)];
    assert_eq!(checked_bytes_preferring(&huge, None), None);
}
