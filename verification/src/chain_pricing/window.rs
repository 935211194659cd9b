//! Capacity-weighted window aggregation. Each block carries its own
//! `WindowAggregate`; a child's aggregate is the parent's, plus the parent's
//! samples, minus the samples that roll off the tail of the window.

use vstd::prelude::*;

use crate::arith::{spec_sat_add_u128, spec_sat_sub_u128};
use crate::chain_pricing::{Lane, PricedBlockSample};
use crate::model::WindowAggregate;

verus! {

/// `agg` with one sample folded in (per-lane sums saturate at `u128::MAX`,
/// the sample count at `u64::MAX`).
pub open spec fn spec_add_one(agg: WindowAggregate, sample: PricedBlockSample) -> WindowAggregate {
    let counted = WindowAggregate {
        blocks_in_window: if agg.blocks_in_window == u64::MAX {
            u64::MAX
        } else {
            (agg.blocks_in_window + 1) as u64
        },
        ..agg
    };
    match sample.controller_lane {
        Lane::Standard => WindowAggregate {
            standard_sum_bytes: spec_sat_add_u128(agg.standard_sum_bytes, sample.relevant_bytes as u128),
            standard_sum_capacity: spec_sat_add_u128(
                agg.standard_sum_capacity,
                sample.relevant_capacity as u128,
            ),
            ..counted
        },
        Lane::Priority => WindowAggregate {
            priority_sum_bytes: spec_sat_add_u128(agg.priority_sum_bytes, sample.relevant_bytes as u128),
            priority_sum_capacity: spec_sat_add_u128(
                agg.priority_sum_capacity,
                sample.relevant_capacity as u128,
            ),
            ..counted
        },
    }
}

/// `agg` with one sample taken out (per-lane sums and the count stop at 0).
pub open spec fn spec_sub_one(agg: WindowAggregate, sample: PricedBlockSample) -> WindowAggregate {
    let counted = WindowAggregate {
        blocks_in_window: if agg.blocks_in_window == 0 {
            0
        } else {
            (agg.blocks_in_window - 1) as u64
        },
        ..agg
    };
    match sample.controller_lane {
        Lane::Standard => WindowAggregate {
            standard_sum_bytes: spec_sat_sub_u128(agg.standard_sum_bytes, sample.relevant_bytes as u128),
            standard_sum_capacity: spec_sat_sub_u128(
                agg.standard_sum_capacity,
                sample.relevant_capacity as u128,
            ),
            ..counted
        },
        Lane::Priority => WindowAggregate {
            priority_sum_bytes: spec_sat_sub_u128(agg.priority_sum_bytes, sample.relevant_bytes as u128),
            priority_sum_capacity: spec_sat_sub_u128(
                agg.priority_sum_capacity,
                sample.relevant_capacity as u128,
            ),
            ..counted
        },
    }
}

/// `agg` with every sample of `samples` folded in, in order.
pub open spec fn spec_add_all(agg: WindowAggregate, samples: Seq<PricedBlockSample>) -> WindowAggregate
    decreases samples.len(),
{
    if samples.len() == 0 {
        agg
    } else {
        spec_add_one(spec_add_all(agg, samples.drop_last()), samples.last())
    }
}

/// `agg` with every sample of `samples` taken out, in order.
pub open spec fn spec_sub_all(agg: WindowAggregate, samples: Seq<PricedBlockSample>) -> WindowAggregate
    decreases samples.len(),
{
    if samples.len() == 0 {
        agg
    } else {
        spec_sub_one(spec_sub_all(agg, samples.drop_last()), samples.last())
    }
}

/// Total bytes of the samples of `samples` that feed `lane`.
pub open spec fn lane_bytes(samples: Seq<PricedBlockSample>, lane: Lane) -> int
    decreases samples.len(),
{
    if samples.len() == 0 {
        0
    } else {
        lane_bytes(samples.drop_last(), lane) + if samples.last().controller_lane == lane {
            samples.last().relevant_bytes as int
        } else {
            0
        }
    }
}

/// Total capacity of the samples of `samples` that feed `lane`.
pub open spec fn lane_capacity(samples: Seq<PricedBlockSample>, lane: Lane) -> int
    decreases samples.len(),
{
    if samples.len() == 0 {
        0
    } else {
        lane_capacity(samples.drop_last(), lane) + if samples.last().controller_lane == lane {
            samples.last().relevant_capacity as int
        } else {
            0
        }
    }
}

/// Folding `samples` into `agg` overflows no counter.
pub open spec fn adds_without_saturation(agg: WindowAggregate, samples: Seq<PricedBlockSample>) -> bool {
    &&& agg.standard_sum_bytes + lane_bytes(samples, Lane::Standard) <= u128::MAX
    &&& agg.standard_sum_capacity + lane_capacity(samples, Lane::Standard) <= u128::MAX
    &&& agg.priority_sum_bytes + lane_bytes(samples, Lane::Priority) <= u128::MAX
    &&& agg.priority_sum_capacity + lane_capacity(samples, Lane::Priority) <= u128::MAX
    &&& agg.blocks_in_window + samples.len() <= u64::MAX
}

/// Taking `samples` out of `agg` brings no counter below zero.
pub open spec fn subs_without_underflow(agg: WindowAggregate, samples: Seq<PricedBlockSample>) -> bool {
    &&& agg.standard_sum_bytes >= lane_bytes(samples, Lane::Standard)
    &&& agg.standard_sum_capacity >= lane_capacity(samples, Lane::Standard)
    &&& agg.priority_sum_bytes >= lane_bytes(samples, Lane::Priority)
    &&& agg.priority_sum_capacity >= lane_capacity(samples, Lane::Priority)
    &&& agg.blocks_in_window >= samples.len()
}

proof fn lemma_lane_sums_nonneg(samples: Seq<PricedBlockSample>)
    ensures
        lane_bytes(samples, Lane::Standard) >= 0,
        lane_bytes(samples, Lane::Priority) >= 0,
        lane_capacity(samples, Lane::Standard) >= 0,
        lane_capacity(samples, Lane::Priority) >= 0,
    decreases samples.len(),
{
    if samples.len() > 0 {
        lemma_lane_sums_nonneg(samples.drop_last());
    }
}

/// Without saturation, folding samples in adds their per-lane sums and count.
pub proof fn lemma_add_all_exact(agg: WindowAggregate, samples: Seq<PricedBlockSample>)
    requires
        adds_without_saturation(agg, samples),
    ensures
        spec_add_all(agg, samples) == (WindowAggregate {
            standard_sum_bytes: (agg.standard_sum_bytes + lane_bytes(samples, Lane::Standard)) as u128,
            standard_sum_capacity: (agg.standard_sum_capacity + lane_capacity(
                samples,
                Lane::Standard,
            )) as u128,
            priority_sum_bytes: (agg.priority_sum_bytes + lane_bytes(samples, Lane::Priority)) as u128,
            priority_sum_capacity: (agg.priority_sum_capacity + lane_capacity(
                samples,
                Lane::Priority,
            )) as u128,
            blocks_in_window: (agg.blocks_in_window + samples.len()) as u64,
        }),
    decreases samples.len(),
{
    if samples.len() > 0 {
        let prefix = samples.drop_last();
        lemma_lane_sums_nonneg(prefix);
        lemma_add_all_exact(agg, prefix);
    }
}

/// Without underflow, taking samples out subtracts their per-lane sums and
/// count.
pub proof fn lemma_sub_all_exact(agg: WindowAggregate, samples: Seq<PricedBlockSample>)
    requires
        subs_without_underflow(agg, samples),
    ensures
        spec_sub_all(agg, samples) == (WindowAggregate {
            standard_sum_bytes: (agg.standard_sum_bytes - lane_bytes(samples, Lane::Standard)) as u128,
            standard_sum_capacity: (agg.standard_sum_capacity - lane_capacity(
                samples,
                Lane::Standard,
            )) as u128,
            priority_sum_bytes: (agg.priority_sum_bytes - lane_bytes(samples, Lane::Priority)) as u128,
            priority_sum_capacity: (agg.priority_sum_capacity - lane_capacity(
                samples,
                Lane::Priority,
            )) as u128,
            blocks_in_window: (agg.blocks_in_window - samples.len()) as u64,
        }),
    decreases samples.len(),
{
    if samples.len() > 0 {
        let prefix = samples.drop_last();
        lemma_lane_sums_nonneg(prefix);
        lemma_lane_sums_nonneg(samples);
        lemma_sub_all_exact(agg, prefix);
    }
}

/// Eviction undoes addition: when folding `samples` into `parent` saturates
/// no counter, evicting the same samples afterwards gives `parent` back.
pub proof fn lemma_evict_restores(parent: WindowAggregate, samples: Seq<PricedBlockSample>)
    requires
        adds_without_saturation(parent, samples),
    ensures
        spec_sub_all(spec_add_all(parent, samples), samples) == parent,
{
    lemma_lane_sums_nonneg(samples);
    lemma_add_all_exact(parent, samples);
    let mid = spec_add_all(parent, samples);
    lemma_sub_all_exact(mid, samples);
}

fn add_one(agg: &mut WindowAggregate, sample: &PricedBlockSample)
    ensures
        *final(agg) == spec_add_one(*old(agg), *sample),
{
    match sample.controller_lane {
        Lane::Standard => {
            agg.standard_sum_bytes = agg.standard_sum_bytes.saturating_add(
                sample.relevant_bytes as u128,
            );
            agg.standard_sum_capacity = agg.standard_sum_capacity.saturating_add(
                sample.relevant_capacity as u128,
            );
        },
        Lane::Priority => {
            agg.priority_sum_bytes = agg.priority_sum_bytes.saturating_add(
                sample.relevant_bytes as u128,
            );
            agg.priority_sum_capacity = agg.priority_sum_capacity.saturating_add(
                sample.relevant_capacity as u128,
            );
        },
    }
    agg.blocks_in_window = agg.blocks_in_window.saturating_add(1);
}

fn sub_one(agg: &mut WindowAggregate, sample: &PricedBlockSample)
    ensures
        *final(agg) == spec_sub_one(*old(agg), *sample),
{
    match sample.controller_lane {
        Lane::Standard => {
            agg.standard_sum_bytes = agg.standard_sum_bytes.saturating_sub(
                sample.relevant_bytes as u128,
            );
            agg.standard_sum_capacity = agg.standard_sum_capacity.saturating_sub(
                sample.relevant_capacity as u128,
            );
        },
        Lane::Priority => {
            agg.priority_sum_bytes = agg.priority_sum_bytes.saturating_sub(
                sample.relevant_bytes as u128,
            );
            agg.priority_sum_capacity = agg.priority_sum_capacity.saturating_sub(
                sample.relevant_capacity as u128,
            );
        },
    }
    agg.blocks_in_window = agg.blocks_in_window.saturating_sub(1);
}

/// The aggregate of a sequence of samples, starting from the empty
/// aggregate. The count goes up once per sample.
pub fn aggregate_from_chain(samples: &[PricedBlockSample]) -> (r: WindowAggregate)
    ensures
        r == spec_add_all(WindowAggregate::spec_zero(), samples@),
{
    let mut agg = WindowAggregate::zero();
    let n = samples.len();
    for i in 0..n
        invariant
            n == samples@.len(),
            agg == spec_add_all(WindowAggregate::spec_zero(), samples@.take(i as int)),
    {
        assert(samples@.take(i + 1).drop_last() == samples@.take(i as int));
        add_one(&mut agg, &samples[i]);
    }
    assert(samples@.take(n as int) == samples@);
    agg
}

/// Incrementally updates an aggregate: folds in `add_samples`, then takes
/// out `evict_samples`. `window_length` is informational; the caller sources
/// `evict_samples` from the block that leaves the window.
pub fn update_aggregate(
    parent: WindowAggregate,
    add_samples: &[PricedBlockSample],
    evict_samples: &[PricedBlockSample],
    window_length: usize,
) -> (r: WindowAggregate)
    ensures
        r == spec_sub_all(spec_add_all(parent, add_samples@), evict_samples@),
{
    let mut agg = parent;
    let n = add_samples.len();
    for i in 0..n
        invariant
            n == add_samples@.len(),
            agg == spec_add_all(parent, add_samples@.take(i as int)),
    {
        assert(add_samples@.take(i + 1).drop_last() == add_samples@.take(i as int));
        add_one(&mut agg, &add_samples[i]);
    }
    assert(add_samples@.take(n as int) == add_samples@);
    let added = agg;
    let m = evict_samples.len();
    for j in 0..m
        invariant
            m == evict_samples@.len(),
            agg == spec_sub_all(added, evict_samples@.take(j as int)),
    {
        assert(evict_samples@.take(j + 1).drop_last() == evict_samples@.take(j as int));
        sub_one(&mut agg, &evict_samples[j]);
    }
    assert(evict_samples@.take(m as int) == evict_samples@);
    agg
}

} // verus!
