use tiered_pricing::chain_pricing::window::{aggregate_from_chain, update_aggregate};
use tiered_pricing::chain_pricing::{BlockKind, Lane, PricedBlockSample};
use tiered_pricing::model::WindowAggregate;

fn rb(bytes: u64, capacity: u64) -> PricedBlockSample {
    PricedBlockSample {
        block_kind: BlockKind::RankingBlock,
        controller_lane: Lane::Standard,
        relevant_bytes: bytes,
        relevant_capacity: capacity,
    }
}

fn eb(bytes: u64, capacity: u64) -> PricedBlockSample {
    PricedBlockSample {
        block_kind: BlockKind::EndorserBlock,
        controller_lane: Lane::Standard,
        relevant_bytes: bytes,
        relevant_capacity: capacity,
    }
}

#[test]
fn empty_iterator_returns_zero_aggregate() {
    let agg = aggregate_from_chain(&[]);
    assert_eq!(agg, WindowAggregate::zero());
}

#[test]
fn heterogeneous_rb_and_eb_blocks_aggregate_correctly() {
    let samples = vec![rb(90_000, 90_000), eb(6_000_000, 12_000_000)];
    let agg = aggregate_from_chain(&samples);
    let (n, d) = agg.aggregate_util(Lane::Standard);
    assert_eq!((n, d), (6_090_000, 12_090_000));
}

#[test]
fn length_one_reduces_to_per_block_fill_rate() {
    let first = vec![rb(45_000, 90_000)];
    let agg1 = update_aggregate(WindowAggregate::zero(), &first, &[], 1);
    let (n, d) = agg1.aggregate_util(Lane::Standard);
    assert_eq!((n, d), (45_000, 90_000));

    let second = vec![eb(3_000_000, 12_000_000)];
    let agg2 = update_aggregate(agg1, &second, &first, 1);
    let (n, d) = agg2.aggregate_util(Lane::Standard);
    assert_eq!((n, d), (3_000_000, 12_000_000));
}

#[test]
fn ring_evicts_oldest_when_full() {
    let s1 = vec![rb(10, 100)];
    let s2 = vec![rb(20, 100)];
    let s3 = vec![rb(30, 100)];
    let s4 = vec![rb(70, 100)];
    let agg = update_aggregate(WindowAggregate::zero(), &s1, &[], 3);
    let agg = update_aggregate(agg, &s2, &[], 3);
    let agg = update_aggregate(agg, &s3, &[], 3);
    let (n, d) = agg.aggregate_util(Lane::Standard);
    assert_eq!((n, d), (60, 300));

    let agg = update_aggregate(agg, &s4, &s1, 3);
    let (n, d) = agg.aggregate_util(Lane::Standard);
    assert_eq!((n, d), (120, 300));
}

#[test]
fn endorsement_only_rb_with_zero_bytes_drags_aggregate_down() {
    let s1 = vec![rb(90_000, 90_000)];
    let s2 = vec![rb(0, 90_000)];
    let agg = update_aggregate(WindowAggregate::zero(), &s1, &[], 4);
    let agg = update_aggregate(agg, &s2, &[], 4);
    let (n, d) = agg.aggregate_util(Lane::Standard);
    assert_eq!((n, d), (90_000, 180_000));
}

#[test]
fn aggregate_from_chain_is_deterministic() {
    let samples = vec![rb(90_000, 90_000), eb(6_000_000, 12_000_000), rb(0, 90_000)];
    let a = aggregate_from_chain(&samples);
    let b = aggregate_from_chain(&samples);
    assert_eq!(a, b);
}

// Further cases.

#[test]
fn evicting_what_was_added_restores_the_aggregate() {
    let parent = aggregate_from_chain(&[rb(10, 100), eb(500, 1000)]);
    let s = vec![rb(70, 100)];
    let added = update_aggregate(parent, &s, &[], 4);
    assert_eq!(update_aggregate(added, &[], &s, 4), parent);
}

#[test]
fn empty_aggregate_reports_zero_over_one() {
    assert_eq!(WindowAggregate::zero().aggregate_util(Lane::Standard), (0, 1));
    assert_eq!(WindowAggregate::zero().aggregate_util(Lane::Priority), (0, 1));
}
