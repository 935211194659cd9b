//! Admission and inclusion: reading quoted assignments off transactions,
//! routing a transaction to a live tier when its assigned tier is gone,
//! ordering by submission, and filling blocks greedily.

use std::sync::Arc;

use vstd::prelude::*;

use crate::model::{TierId, Transaction, TransactionRejectReason};
use crate::tx_pricing::history::{
    spec_verify_assignment, QuotedAssignment, TierAssignmentHistory,
};
use crate::tx_pricing::{Tier, TierBlockSelectionPolicy};

verus! {

/// The tier assignment used to route a transaction at inclusion.
#[derive(Debug, Clone, Copy, PartialEq, Eq, Structural)]
pub struct InclusionAssignment {
    pub tier_id: TierId,
    pub delay_slots: u64,
    pub price_per_byte_at_assignment: u64,
}

/// The tier assignment revalidated at inclusion under legacy semantics.
#[derive(Debug, Clone, Copy, PartialEq, Eq, Structural)]
pub struct LegacyInclusionAssignment {
    pub tier_id: TierId,
    pub posted_fee: u64,
}

pub open spec fn spec_extract_quoted_assignment(
    tier_id: Option<TierId>,
    version_created_slot: Option<u64>,
    posted_fee: Option<u64>,
    delay_slots: Option<u64>,
    price_per_byte_at_assignment: Option<u64>,
) -> Result<Option<QuotedAssignment>, TransactionRejectReason> {
    if tier_id is None && version_created_slot is None && posted_fee is None && delay_slots is None
        && price_per_byte_at_assignment is None {
        Ok(None)
    } else {
        match (tier_id, version_created_slot, posted_fee, delay_slots, price_per_byte_at_assignment) {
            (Some(t), Some(v), Some(f), Some(d), Some(p)) => Ok(
                Some(
                    QuotedAssignment {
                        tier_id: t,
                        version_created_slot: v,
                        posted_fee: f,
                        delay_slots: d,
                        price_per_byte_at_assignment: p,
                    },
                ),
            ),
            _ => Err(TransactionRejectReason::InvalidQuotedAssignment),
        }
    }
}

/// A quoted assignment from its five optional fields: none when all are
/// absent, the assignment when all are present, rejected otherwise.
pub fn extract_quoted_assignment(
    tier_id: Option<TierId>,
    version_created_slot: Option<u64>,
    posted_fee: Option<u64>,
    delay_slots: Option<u64>,
    price_per_byte_at_assignment: Option<u64>,
) -> (r: Result<Option<QuotedAssignment>, TransactionRejectReason>)
    ensures
        r == spec_extract_quoted_assignment(
            tier_id,
            version_created_slot,
            posted_fee,
            delay_slots,
            price_per_byte_at_assignment,
        ),
{
    let has_any = tier_id.is_some() || version_created_slot.is_some() || posted_fee.is_some()
        || delay_slots.is_some() || price_per_byte_at_assignment.is_some();
    if !has_any {
        return Ok(None);
    }
    match (tier_id, version_created_slot, posted_fee, delay_slots, price_per_byte_at_assignment) {
        (Some(t), Some(v), Some(f), Some(d), Some(p)) => Ok(
            Some(
                QuotedAssignment {
                    tier_id: t,
                    version_created_slot: v,
                    posted_fee: f,
                    delay_slots: d,
                    price_per_byte_at_assignment: p,
                },
            ),
        ),
        _ => Err(TransactionRejectReason::InvalidQuotedAssignment),
    }
}

pub open spec fn spec_verify_preassigned(
    tx: Transaction,
    has_separate_eb_pool: bool,
    policy: TierBlockSelectionPolicy,
    rb_records: Map<(u64, u64), crate::tx_pricing::history::TierAssignmentRecord>,
    eb_records: Option<Map<(u64, u64), crate::tx_pricing::history::TierAssignmentRecord>>,
) -> Result<(), TransactionRejectReason> {
    let rb = spec_extract_quoted_assignment(
        tx.tier_preference,
        tx.tier_version_created_slot,
        tx.posted_fee,
        tx.tier_delay_slots,
        tx.tier_price_per_byte_at_assignment,
    );
    let eb = if has_separate_eb_pool {
        spec_extract_quoted_assignment(
            tx.eb_tier_preference,
            tx.eb_tier_version_created_slot,
            tx.eb_posted_fee,
            tx.eb_tier_delay_slots,
            tx.eb_tier_price_per_byte_at_assignment,
        )
    } else {
        Ok(None)
    };
    match rb {
        Err(e) => Err(e),
        Ok(rb_a) => match eb {
            Err(e) => Err(e),
            Ok(eb_a) => {
                if rb_a is None && eb_a is None {
                    Err(TransactionRejectReason::InvalidQuotedAssignment)
                } else if policy is ContinuousRbEb && rb_a is Some && eb_a is Some {
                    Err(TransactionRejectReason::InvalidQuotedAssignment)
                } else {
                    let rb_check = match rb_a {
                        Some(a) => spec_verify_assignment(rb_records, a, tx.bytes),
                        None => Ok(()),
                    };
                    if rb_check is Err {
                        rb_check
                    } else {
                        match eb_a {
                            None => Ok(()),
                            Some(a) => match eb_records {
                                None => Err(TransactionRejectReason::QuotedHistoryUnavailable),
                                Some(m) => spec_verify_assignment(m, a, tx.bytes),
                            },
                        }
                    }
                }
            },
        },
    }
}

/// Admission check of a transaction's pre-assigned tier quote(s) against
/// the ranking-pool history and, with a separate EB pool, the EB-pool
/// history: a transaction needs at least one complete quote, at most one
/// under `ContinuousRbEb`, and every quote it carries must verify.
pub fn verify_preassigned_transaction(
    tx: &Transaction,
    has_separate_eb_pool: bool,
    policy: TierBlockSelectionPolicy,
    rb_history: &TierAssignmentHistory,
    eb_history: Option<&TierAssignmentHistory>,
) -> (r: Result<(), TransactionRejectReason>)
    ensures
        r == spec_verify_preassigned(
            *tx,
            has_separate_eb_pool,
            policy,
            rb_history.spec_records(),
            match eb_history {
                Some(h) => Some(h.spec_records()),
                None => None,
            },
        ),
{
    let rb_assignment = match extract_quoted_assignment(
        tx.tier_preference,
        tx.tier_version_created_slot,
        tx.posted_fee,
        tx.tier_delay_slots,
        tx.tier_price_per_byte_at_assignment,
    ) {
        Ok(a) => a,
        Err(e) => {
            return Err(e);
        },
    };
    let eb_assignment = if has_separate_eb_pool {
        match extract_quoted_assignment(
            tx.eb_tier_preference,
            tx.eb_tier_version_created_slot,
            tx.eb_posted_fee,
            tx.eb_tier_delay_slots,
            tx.eb_tier_price_per_byte_at_assignment,
        ) {
            Ok(a) => a,
            Err(e) => {
                return Err(e);
            },
        }
    } else {
        None
    };
    if rb_assignment.is_none() && eb_assignment.is_none() {
        return Err(TransactionRejectReason::InvalidQuotedAssignment);
    }
    let is_continuous = match policy {
        TierBlockSelectionPolicy::ContinuousRbEb => true,
        _ => false,
    };
    if is_continuous && rb_assignment.is_some() && eb_assignment.is_some() {
        return Err(TransactionRejectReason::InvalidQuotedAssignment);
    }
    if let Some(assignment) = rb_assignment {
        match rb_history.verify_assignment(assignment, tx.bytes) {
            Ok(_) => {},
            Err(e) => {
                return Err(e);
            },
        }
    }
    if let Some(assignment) = eb_assignment {
        match eb_history {
            None => {
                return Err(TransactionRejectReason::QuotedHistoryUnavailable);
            },
            Some(history) => {
                return history.verify_assignment(assignment, tx.bytes);
            },
        }
    }
    Ok(())
}

pub open spec fn spec_derive_price_per_byte(posted_fee: Option<u64>, bytes: u64) -> Option<u64> {
    if bytes == 0 {
        None
    } else {
        match posted_fee {
            Some(fee) => Some((fee / bytes) as u64),
            None => None,
        }
    }
}

/// The price per byte implied by a posted fee (floor), when bytes > 0.
pub fn derive_price_per_byte(posted_fee: Option<u64>, bytes: u64) -> (r: Option<u64>)
    ensures
        r == spec_derive_price_per_byte(posted_fee, bytes),
{
    if bytes == 0 {
        return None;
    }
    match posted_fee {
        Some(fee) => Some(fee / bytes),
        None => None,
    }
}

pub open spec fn spec_lane_assignment_for_inclusion(
    tx: Transaction,
    has_separate_eb_pool: bool,
    use_eb_preference: bool,
) -> Option<InclusionAssignment> {
    if use_eb_preference && has_separate_eb_pool {
        match tx.eb_tier_preference {
            None => None,
            Some(tier_id) => Some(
                InclusionAssignment {
                    tier_id,
                    delay_slots: match tx.eb_tier_delay_slots {
                        Some(d) => d,
                        None => 1,
                    },
                    price_per_byte_at_assignment: match tx.eb_tier_price_per_byte_at_assignment {
                        Some(p) => p,
                        None => match spec_derive_price_per_byte(tx.eb_posted_fee, tx.bytes) {
                            Some(p) => p,
                            None => 0,
                        },
                    },
                },
            ),
        }
    } else {
        match tx.tier_preference {
            None => None,
            Some(tier_id) => Some(
                InclusionAssignment {
                    tier_id,
                    delay_slots: match tx.tier_delay_slots {
                        Some(d) => d,
                        None => 1,
                    },
                    price_per_byte_at_assignment: match tx.tier_price_per_byte_at_assignment {
                        Some(p) => p,
                        None => match spec_derive_price_per_byte(tx.posted_fee, tx.bytes) {
                            Some(p) => p,
                            None => 0,
                        },
                    },
                },
            ),
        }
    }
}

/// The assignment that routes `tx` at inclusion: the EB-pool fields when
/// the EB pool is separate and asked for, else the primary fields; delay
/// defaults to 1 and the price to the one implied by the posted fee.
pub fn lane_assignment_for_inclusion(
    tx: &Transaction,
    has_separate_eb_pool: bool,
    use_eb_preference: bool,
) -> (r: Option<InclusionAssignment>)
    ensures
        r == spec_lane_assignment_for_inclusion(*tx, has_separate_eb_pool, use_eb_preference),
{
    if use_eb_preference && has_separate_eb_pool {
        let tier_id = match tx.eb_tier_preference {
            Some(t) => t,
            None => {
                return None;
            },
        };
        let delay_slots = match tx.eb_tier_delay_slots {
            Some(d) => d,
            None => 1,
        };
        let price_per_byte_at_assignment = match tx.eb_tier_price_per_byte_at_assignment {
            Some(p) => p,
            None => match derive_price_per_byte(tx.eb_posted_fee, tx.bytes) {
                Some(p) => p,
                None => 0,
            },
        };
        return Some(InclusionAssignment { tier_id, delay_slots, price_per_byte_at_assignment });
    }
    let tier_id = match tx.tier_preference {
        Some(t) => t,
        None => {
            return None;
        },
    };
    let delay_slots = match tx.tier_delay_slots {
        Some(d) => d,
        None => 1,
    };
    let price_per_byte_at_assignment = match tx.tier_price_per_byte_at_assignment {
        Some(p) => p,
        None => match derive_price_per_byte(tx.posted_fee, tx.bytes) {
            Some(p) => p,
            None => 0,
        },
    };
    Some(InclusionAssignment { tier_id, delay_slots, price_per_byte_at_assignment })
}

pub open spec fn spec_lane_assignment_for_legacy_inclusion(
    tx: Transaction,
    has_separate_eb_pool: bool,
    use_eb_preference: bool,
) -> Option<LegacyInclusionAssignment> {
    if use_eb_preference && has_separate_eb_pool {
        match (tx.eb_tier_preference, tx.eb_posted_fee) {
            (Some(t), Some(f)) => Some(LegacyInclusionAssignment { tier_id: t, posted_fee: f }),
            _ => None,
        }
    } else {
        match (tx.tier_preference, tx.posted_fee) {
            (Some(t), Some(f)) => Some(LegacyInclusionAssignment { tier_id: t, posted_fee: f }),
            _ => None,
        }
    }
}

/// Tier id and posted fee of the lane's assignment, when both are set.
pub fn lane_assignment_for_legacy_inclusion(
    tx: &Transaction,
    has_separate_eb_pool: bool,
    use_eb_preference: bool,
) -> (r: Option<LegacyInclusionAssignment>)
    ensures
        r == spec_lane_assignment_for_legacy_inclusion(*tx, has_separate_eb_pool, use_eb_preference),
{
    if use_eb_preference && has_separate_eb_pool {
        return match (tx.eb_tier_preference, tx.eb_posted_fee) {
            (Some(t), Some(f)) => Some(LegacyInclusionAssignment { tier_id: t, posted_fee: f }),
            _ => None,
        };
    }
    match (tx.tier_preference, tx.posted_fee) {
        (Some(t), Some(f)) => Some(LegacyInclusionAssignment { tier_id: t, posted_fee: f }),
        _ => None,
    }
}

/// Index of the last tier with id `tier_id`.
pub open spec fn spec_index_of_tier(tiers: Seq<Tier>, tier_id: TierId) -> Option<int>
    decreases tiers.len(),
{
    if tiers.len() == 0 {
        None
    } else if tiers.last().id == tier_id {
        Some(tiers.len() - 1)
    } else {
        spec_index_of_tier(tiers.drop_last(), tier_id)
    }
}

/// Index of the last tier with id `tier_id`, if any.
pub fn index_of_tier(tiers: &[Tier], tier_id: TierId) -> (r: Option<usize>)
    ensures
        r matches Some(i) ==> spec_index_of_tier(tiers@, tier_id) == Some(i as int),
        r is None ==> spec_index_of_tier(tiers@, tier_id) is None,
{
    let mut k = tiers.len();
    assert(tiers@.take(k as int) == tiers@);
    while k > 0
        invariant
            k <= tiers@.len(),
            spec_index_of_tier(tiers@, tier_id) == spec_index_of_tier(tiers@.take(k as int), tier_id),
        decreases k,
    {
        assert(tiers@.take(k as int).last() == tiers@[k - 1]);
        if tiers[k - 1].id.0 == tier_id.0 {
            return Some(k - 1);
        }
        assert(tiers@.take(k as int).drop_last() == tiers@.take(k - 1));
        k = k - 1;
    }
    None
}

pub open spec fn spec_abs_diff(a: u64, b: u64) -> u64 {
    if a < b {
        (b - a) as u64
    } else {
        (a - b) as u64
    }
}

/// `(delay distance, price, id, index)` of tier `i` is lexicographically
/// smaller than that of tier `j`.
pub open spec fn spec_fallback_less(tiers: Seq<Tier>, assigned_delay: u64, i: int, j: int) -> bool {
    let di = spec_abs_diff(tiers[i].delay, assigned_delay);
    let dj = spec_abs_diff(tiers[j].delay, assigned_delay);
    di < dj || (di == dj && (tiers[i].price < tiers[j].price || (tiers[i].price == tiers[j].price
        && (tiers[i].id.0 < tiers[j].id.0 || (tiers[i].id.0 == tiers[j].id.0 && i < j)))))
}

/// `i` is the best equal-or-cheaper tier: price at most the assigned one,
/// and the least `(delay distance, price, id, index)` among those.
pub open spec fn is_best_equal_or_cheaper(tiers: Seq<Tier>, delay: u64, price: u64, i: int) -> bool {
    &&& 0 <= i < tiers.len()
    &&& tiers[i].price <= price
    &&& forall|j: int|
        0 <= j < tiers.len() && #[trigger] tiers[j].price <= price && j != i ==> spec_fallback_less(
            tiers,
            delay,
            i,
            j,
        )
}

/// `i` is the lowest-priority tier: largest delay, then largest id, then
/// the last such tier.
pub open spec fn is_lowest_priority(tiers: Seq<Tier>, i: int) -> bool {
    &&& 0 <= i < tiers.len()
    &&& forall|j: int|
        0 <= j < tiers.len() && j != i ==> (#[trigger] tiers[j].delay < tiers[i].delay || (
        tiers[j].delay == tiers[i].delay && (tiers[j].id.0 < tiers[i].id.0 || (tiers[j].id.0
            == tiers[i].id.0 && j < i))))
}

/// Where a transaction assigned to `tier_id` goes at inclusion: that tier
/// when it is still live; else the best equal-or-cheaper tier; else the
/// lowest-priority tier; `None` when there are no tiers.
pub open spec fn spec_resolve_inclusion_tier_index(
    tiers: Seq<Tier>,
    tier_id: TierId,
    delay: u64,
    price: u64,
) -> Option<int> {
    match spec_index_of_tier(tiers, tier_id) {
        Some(i) => Some(i),
        None => if tiers.len() == 0 {
            None
        } else if exists|j: int| 0 <= j < tiers.len() && #[trigger] tiers[j].price <= price {
            Some(choose|i: int| is_best_equal_or_cheaper(tiers, delay, price, i))
        } else {
            Some(choose|i: int| is_lowest_priority(tiers, i))
        },
    }
}

proof fn lemma_best_equal_or_cheaper_unique(tiers: Seq<Tier>, delay: u64, price: u64, i: int, k: int)
    requires
        is_best_equal_or_cheaper(tiers, delay, price, i),
        is_best_equal_or_cheaper(tiers, delay, price, k),
    ensures
        i == k,
{
    if i != k {
        assert(spec_fallback_less(tiers, delay, i, k));
        assert(spec_fallback_less(tiers, delay, k, i));
    }
}

proof fn lemma_lowest_priority_unique(tiers: Seq<Tier>, i: int, k: int)
    requires
        is_lowest_priority(tiers, i),
        is_lowest_priority(tiers, k),
    ensures
        i == k,
{
    if i != k {
        assert(tiers[k].delay < tiers[i].delay || (tiers[k].delay == tiers[i].delay && (
        tiers[k].id.0 < tiers[i].id.0 || (tiers[k].id.0 == tiers[i].id.0 && k < i))));
        assert(tiers[i].delay < tiers[k].delay || (tiers[i].delay == tiers[k].delay && (
        tiers[i].id.0 < tiers[k].id.0 || (tiers[i].id.0 == tiers[k].id.0 && i < k))));
    }
}

/// Routes a transaction assigned to `assigned_tier_id` to a live tier; see
/// `spec_resolve_inclusion_tier_index`.
pub fn resolve_inclusion_tier_index(
    tiers: &[Tier],
    assigned_tier_id: TierId,
    assigned_delay_slots: u64,
    assigned_price_per_byte: u64,
) -> (r: Option<usize>)
    ensures
        match spec_resolve_inclusion_tier_index(
            tiers@,
            assigned_tier_id,
            assigned_delay_slots,
            assigned_price_per_byte,
        ) {
            Some(i) => r == Some(i as usize),
            None => r is None,
        },
        r matches Some(j) ==> spec_resolve_inclusion_tier_index(
            tiers@,
            assigned_tier_id,
            assigned_delay_slots,
            assigned_price_per_byte,
        ) == Some(j as int),
        spec_index_of_tier(tiers@, assigned_tier_id) is None ==> {
            &&& (exists|j: int| 0 <= j < tiers@.len() && #[trigger] tiers@[j].price <= assigned_price_per_byte)
                ==> (r matches Some(i) && is_best_equal_or_cheaper(
                tiers@,
                assigned_delay_slots,
                assigned_price_per_byte,
                i as int,
            ))
            &&& (forall|j: int| 0 <= j < tiers@.len() ==> #[trigger] tiers@[j].price
                > assigned_price_per_byte) && tiers@.len() > 0 ==> (r matches Some(i)
                && is_lowest_priority(tiers@, i as int))
        },
{
    if let Some(index) = index_of_tier(tiers, assigned_tier_id) {
        return Some(index);
    }
    let n = tiers.len();
    if n == 0 {
        return None;
    }
    let mut best: Option<usize> = None;
    for i in 0..n
        invariant
            n == tiers@.len(),
            match best {
                Some(b) => {
                    &&& b < i
                    &&& is_best_equal_or_cheaper(
                        tiers@.take(i as int),
                        assigned_delay_slots,
                        assigned_price_per_byte,
                        b as int,
                    )
                },
                None => forall|j: int|
                    0 <= j < i ==> #[trigger] tiers@[j].price > assigned_price_per_byte,
            },
    {
        let tier = &tiers[i];
        if tier.price <= assigned_price_per_byte {
            let distance = if tier.delay < assigned_delay_slots {
                assigned_delay_slots - tier.delay
            } else {
                tier.delay - assigned_delay_slots
            };
            let replace = match best {
                None => true,
                Some(b) => {
                    let bt = &tiers[b];
                    let bd = if bt.delay < assigned_delay_slots {
                        assigned_delay_slots - bt.delay
                    } else {
                        bt.delay - assigned_delay_slots
                    };
                    distance < bd || (distance == bd && (tier.price < bt.price || (tier.price
                        == bt.price && tier.id.0 < bt.id.0)))
                },
            };
            if replace {
                best = Some(i);
            }
        }
        proof {
            let t = tiers@.take(i + 1);
            assert forall|j: int| 0 <= j < i + 1 implies #[trigger] t[j] == tiers@[j] by {}
        }
    }
    assert(tiers@.take(n as int) == tiers@);
    if let Some(b) = best {
        proof {
            let c = choose|i: int|
                is_best_equal_or_cheaper(tiers@, assigned_delay_slots, assigned_price_per_byte, i);
            assert(tiers@[b as int].price <= assigned_price_per_byte);
            lemma_best_equal_or_cheaper_unique(
                tiers@,
                assigned_delay_slots,
                assigned_price_per_byte,
                b as int,
                c,
            );
        }
        return Some(b);
    }
    let mut low: usize = 0;
    for i in 1..n
        invariant
            n == tiers@.len(),
            is_lowest_priority(tiers@.take(i as int), low as int),
            low < i,
    {
        let a = &tiers[i];
        let c = &tiers[low];
        if a.delay > c.delay || (a.delay == c.delay && a.id.0 >= c.id.0) {
            low = i;
        }
        proof {
            let t = tiers@.take(i + 1);
            assert forall|j: int| 0 <= j < i + 1 implies #[trigger] t[j] == tiers@[j] by {}
        }
    }
    proof {
        assert(tiers@.take(n as int) == tiers@);
        assert(!(exists|j: int| 0 <= j < tiers@.len() && #[trigger] tiers@[j].price <= assigned_price_per_byte));
        let c = choose|i: int| is_lowest_priority(tiers@, i);
        lemma_lowest_priority_unique(tiers@, low as int, c);
    }
    Some(low)
}

} // verus!

verus! {

/// Calls `Arc::clone`, which returns another pointer to the same
/// transaction; the contract claims that the clone equals the pointer it was made from.
#[verifier::external_body]
fn clone_transaction(tx: &Arc<Transaction>) -> (r: Arc<Transaction>)
    ensures
        r == *tx,
{
    Arc::clone(tx)
}

/// Another pointer to the same transaction.
pub fn clone_transaction_pub(tx: &Arc<Transaction>) -> (r: Arc<Transaction>)
    ensures
        r == *tx,
{
    clone_transaction(tx)
}

/// `a` is submitted no later than `b`: by submission slot, then by id.
pub open spec fn spec_submitted_no_later(a: Transaction, b: Transaction) -> bool {
    a.submission_slot < b.submission_slot || (a.submission_slot == b.submission_slot && a.id.0
        <= b.id.0)
}

/// Position at which `x` is inserted into `sorted`: before the first
/// element submitted strictly after it.
pub open spec fn spec_insert_pos(sorted: Seq<Arc<Transaction>>, x: Arc<Transaction>) -> int
    decreases sorted.len(),
{
    if sorted.len() == 0 {
        0
    } else {
        let p = spec_insert_pos(sorted.drop_last(), x);
        if p < sorted.len() - 1 {
            p
        } else if !spec_submitted_no_later(*sorted.last(), *x) {
            sorted.len() - 1
        } else {
            sorted.len() as int
        }
    }
}

/// Stable sort by submission order (insertion sort).
pub open spec fn spec_sort_by_submission(s: Seq<Arc<Transaction>>) -> Seq<Arc<Transaction>>
    decreases s.len(),
{
    if s.len() == 0 {
        s
    } else {
        let p = spec_sort_by_submission(s.drop_last());
        p.insert(spec_insert_pos(p, s.last()), s.last())
    }
}

proof fn lemma_insert_pos_first(sorted: Seq<Arc<Transaction>>, x: Arc<Transaction>, pos: int)
    requires
        0 <= pos <= sorted.len(),
        forall|j: int| 0 <= j < pos ==> spec_submitted_no_later(*#[trigger] sorted[j], *x),
        pos < sorted.len() ==> !spec_submitted_no_later(*sorted[pos], *x),
    ensures
        spec_insert_pos(sorted, x) == pos,
    decreases sorted.len(),
{
    if sorted.len() > 0 {
        let p = sorted.drop_last();
        if pos < sorted.len() {
            if pos < sorted.len() - 1 {
                assert(p[pos] == sorted[pos]);
                assert forall|j: int| 0 <= j < pos implies spec_submitted_no_later(*#[trigger] p[j], *x) by {
                    assert(p[j] == sorted[j]);
                }
                lemma_insert_pos_first(p, x, pos);
            } else {
                assert forall|j: int| 0 <= j < pos implies spec_submitted_no_later(*#[trigger] p[j], *x) by {
                    assert(p[j] == sorted[j]);
                }
                lemma_insert_pos_first(p, x, p.len() as int);
            }
        } else {
            assert forall|j: int| 0 <= j < p.len() implies spec_submitted_no_later(*#[trigger] p[j], *x) by {
                assert(p[j] == sorted[j]);
            }
            lemma_insert_pos_first(p, x, p.len() as int);
        }
    }
}

/// Every transaction of `s` is submitted no later than every later one.
pub open spec fn sorted_by_submission(s: Seq<Arc<Transaction>>) -> bool {
    forall|i: int, j: int| 0 <= i < j < s.len() ==> spec_submitted_no_later(*#[trigger] s[i], *#[trigger] s[j])
}

proof fn lemma_insert_pos_splits(sorted: Seq<Arc<Transaction>>, x: Arc<Transaction>)
    requires
        sorted_by_submission(sorted),
    ensures
        0 <= spec_insert_pos(sorted, x) <= sorted.len(),
        forall|j: int|
            0 <= j < spec_insert_pos(sorted, x) ==> spec_submitted_no_later(*#[trigger] sorted[j], *x),
        forall|j: int|
            spec_insert_pos(sorted, x) <= j < sorted.len() ==> !spec_submitted_no_later(
                *#[trigger] sorted[j],
                *x,
            ),
    decreases sorted.len(),
{
    if sorted.len() > 0 {
        let d = sorted.drop_last();
        assert forall|i: int, j: int| 0 <= i < j < d.len() implies spec_submitted_no_later(
            *#[trigger] d[i],
            *#[trigger] d[j],
        ) by {
            assert(d[i] == sorted[i] && d[j] == sorted[j]);
        }
        lemma_insert_pos_splits(d, x);
        let p = spec_insert_pos(d, x);
        assert forall|j: int| 0 <= j < d.len() implies #[trigger] d[j] == sorted[j] by {}
        if p < sorted.len() - 1 {
            assert(!spec_submitted_no_later(*d[p], *x));
            assert(spec_submitted_no_later(*sorted[p], *sorted[sorted.len() - 1]));
        }
        let q = spec_insert_pos(sorted, x);
        assert forall|j: int| 0 <= j < q implies spec_submitted_no_later(*#[trigger] sorted[j], *x) by {
            if j < d.len() {
                assert(d[j] == sorted[j]);
            }
        }
        assert forall|j: int| q <= j < sorted.len() implies !spec_submitted_no_later(
            *#[trigger] sorted[j],
            *x,
        ) by {
            if j < d.len() {
                assert(d[j] == sorted[j]);
            }
        }
    }
}

/// Sorting by submission yields the same transactions, each submitted no
/// later than the ones after it.
pub proof fn lemma_sort_by_submission_sorts(s: Seq<Arc<Transaction>>)
    ensures
        sorted_by_submission(spec_sort_by_submission(s)),
        spec_sort_by_submission(s).to_multiset() == s.to_multiset(),
    decreases s.len(),
{
    broadcast use vstd::seq_lib::to_multiset_insert, vstd::seq_lib::to_multiset_build;

    if s.len() > 0 {
        lemma_sort_by_submission_sorts(s.drop_last());
        let p = spec_sort_by_submission(s.drop_last());
        let x = s.last();
        let pos = spec_insert_pos(p, x);
        lemma_insert_pos_splits(p, x);
        let r = p.insert(pos, x);
        p.insert_ensures(pos, x);
        assert forall|i: int, j: int| 0 <= i < j < r.len() implies spec_submitted_no_later(
            *#[trigger] r[i],
            *#[trigger] r[j],
        ) by {
            if j < pos {
                assert(r[i] == p[i] && r[j] == p[j]);
            } else if j == pos {
                assert(r[i] == p[i]);
            } else if i < pos {
                assert(r[i] == p[i] && r[j] == p[j - 1]);
                assert(spec_submitted_no_later(*p[i], *p[j - 1]));
            } else if i == pos {
                assert(r[j] == p[j - 1]);
                assert(!spec_submitted_no_later(*p[j - 1], *x));
            } else {
                assert(r[i] == p[i - 1] && r[j] == p[j - 1]);
            }
        }
        assert(s == s.drop_last().push(x));
    }
}

/// The transactions in submission order (stable: equal keys keep their
/// relative order).
pub fn sort_by_submission(txs: Vec<Arc<Transaction>>) -> (r: Vec<Arc<Transaction>>)
    ensures
        r@ == spec_sort_by_submission(txs@),
{
    let mut out: Vec<Arc<Transaction>> = Vec::new();
    let n = txs.len();
    for i in 0..n
        invariant
            n == txs@.len(),
            out@ == spec_sort_by_submission(txs@.take(i as int)),
    {
        let x = clone_transaction(&txs[i]);
        let ghost xv: Arc<Transaction> = txs@[i as int];
        let mut pos: usize = 0;
        let len = out.len();
        while pos < len
            invariant
                pos <= len == out@.len(),
                forall|j: int| 0 <= j < pos ==> spec_submitted_no_later(*#[trigger] out@[j], *xv),
                xv == x,
            ensures
                pos <= len == out@.len(),
                forall|j: int| 0 <= j < pos ==> spec_submitted_no_later(*#[trigger] out@[j], *xv),
                pos < len ==> !spec_submitted_no_later(*out@[pos as int], *xv),
            decreases len - pos,
        {
            let e = &out[pos];
            if !(e.submission_slot < x.submission_slot || (e.submission_slot == x.submission_slot
                && e.id.0 <= x.id.0)) {
                break;
            }
            pos = pos + 1;
        }
        proof {
            lemma_insert_pos_first(out@, xv, pos as int);
            assert(txs@.take(i + 1).drop_last() == txs@.take(i as int));
            assert(txs@.take(i + 1).last() == txs@[i as int]);
        }
        out.insert(pos, x);
    }
    assert(txs@.take(n as int) == txs@);
    out
}

/// Greedy fill of `s` in order under two budgets (a per-tier one and the
/// block's): a transaction is taken when its bytes fit both, and then
/// consumes both. Returns what was taken and the two remaining budgets.
pub open spec fn spec_fill(s: Seq<Arc<Transaction>>, tier_budget: u64, block_budget: u64) -> (
    Seq<Arc<Transaction>>,
    u64,
    u64,
)
    decreases s.len(),
{
    if s.len() == 0 {
        (Seq::empty(), tier_budget, block_budget)
    } else {
        let (taken, a, b) = spec_fill(s.drop_last(), tier_budget, block_budget);
        let x = s.last();
        if x.bytes <= a && x.bytes <= b {
            (taken.push(x), (a - x.bytes) as u64, (b - x.bytes) as u64)
        } else {
            (taken, a, b)
        }
    }
}

/// Total bytes of a sequence of transactions.
pub open spec fn total_bytes(s: Seq<Arc<Transaction>>) -> int
    decreases s.len(),
{
    if s.len() == 0 {
        0
    } else {
        total_bytes(s.drop_last()) + s.last().bytes
    }
}

/// A greedy fill never exceeds either budget: what it takes plus what
/// remains of each budget is the budget.
pub proof fn lemma_fill_within_budgets(s: Seq<Arc<Transaction>>, tier_budget: u64, block_budget: u64)
    ensures
        ({
            let (taken, a, b) = spec_fill(s, tier_budget, block_budget);
            &&& total_bytes(taken) + a == tier_budget
            &&& total_bytes(taken) + b == block_budget
            &&& a <= tier_budget
            &&& b <= block_budget
        }),
    decreases s.len(),
{
    if s.len() > 0 {
        lemma_fill_within_budgets(s.drop_last(), tier_budget, block_budget);
        let (taken, a, b) = spec_fill(s.drop_last(), tier_budget, block_budget);
        let x = s.last();
        if x.bytes <= a && x.bytes <= b {
            assert(taken.push(x).drop_last() == taken);
        }
    }
}

/// Appends the greedy fill of `candidates` under the two budgets to
/// `included`; returns the remaining budgets.
pub fn fill_greedy(
    candidates: Vec<Arc<Transaction>>,
    tier_budget: u64,
    block_budget: u64,
    included: &mut Vec<Arc<Transaction>>,
) -> (r: (u64, u64))
    ensures
        final(included)@ == old(included)@ + spec_fill(candidates@, tier_budget, block_budget).0,
        r.0 == spec_fill(candidates@, tier_budget, block_budget).1,
        r.1 == spec_fill(candidates@, tier_budget, block_budget).2,
{
    let mut a = tier_budget;
    let mut b = block_budget;
    let n = candidates.len();
    let ghost start = included@;
    for i in 0..n
        invariant
            n == candidates@.len(),
            included@ == start + spec_fill(candidates@.take(i as int), tier_budget, block_budget).0,
            a == spec_fill(candidates@.take(i as int), tier_budget, block_budget).1,
            b == spec_fill(candidates@.take(i as int), tier_budget, block_budget).2,
    {
        proof {
            assert(candidates@.take(i + 1).drop_last() == candidates@.take(i as int));
            assert(candidates@.take(i + 1).last() == candidates@[i as int]);
        }
        let tx = &candidates[i];
        if tx.bytes <= a && tx.bytes <= b {
            a = a - tx.bytes;
            b = b - tx.bytes;
            included.push(clone_transaction(tx));
            proof {
                let prev = spec_fill(candidates@.take(i as int), tier_budget, block_budget).0;
                assert(start + prev.push(candidates@[i as int]) == (start + prev).push(
                    candidates@[i as int],
                ));
            }
        }
    }
    assert(candidates@.take(n as int) == candidates@);
    (a, b)
}

/// Whether `tx` is a single-tier candidate for `tier`: assigned to it,
/// with a posted fee that satisfies the fee history (no grace), or covers
/// the tier's required fee when there is no history.
pub open spec fn spec_single_tier_candidate(
    tx: Transaction,
    tier: crate::tx_pricing::TierQuote,
    slot: u64,
    fee_history: Option<crate::tx_pricing::history::SingleTierFeeHistory>,
    grace: u64,
) -> bool {
    tx.tier_preference == Some(tier.id) && match tx.posted_fee {
        None => false,
        Some(posted_fee) => match fee_history {
            Some(h) => h.spec_fee_satisfies(
                tier.id,
                tier.price_per_byte,
                tx.submission_slot,
                slot,
                tx.bytes,
                posted_fee,
                grace,
            ),
            None => posted_fee >= tier.spec_required_fee(tx.bytes),
        },
    }
}

pub open spec fn spec_candidates(
    txs: Seq<Arc<Transaction>>,
    tier: crate::tx_pricing::TierQuote,
    slot: u64,
    fee_history: Option<crate::tx_pricing::history::SingleTierFeeHistory>,
    grace: u64,
) -> Seq<Arc<Transaction>>
    decreases txs.len(),
{
    if txs.len() == 0 {
        Seq::empty()
    } else {
        let p = spec_candidates(txs.drop_last(), tier, slot, fee_history, grace);
        if spec_single_tier_candidate(*txs.last(), tier, slot, fee_history, grace) {
            p.push(txs.last())
        } else {
            p
        }
    }
}

/// The transactions that prefer `tier` and posted a fee that covers it;
/// see `spec_candidates`.
pub fn candidates_for_tier(
    txs: &[Arc<Transaction>],
    tier: &crate::tx_pricing::TierQuote,
    slot: u64,
    fee_history: Option<&crate::tx_pricing::history::SingleTierFeeHistory>,
    grace: u64,
) -> (r: Vec<Arc<Transaction>>)
    ensures
        r@ == spec_candidates(
            txs@,
            *tier,
            slot,
            match fee_history {
                Some(h) => Some(*h),
                None => None,
            },
            grace,
        ),
{
    let ghost hist = match fee_history {
        Some(h) => Some(*h),
        None => None,
    };
    let mut out: Vec<Arc<Transaction>> = Vec::new();
    let n = txs.len();
    for i in 0..n
        invariant
            n == txs@.len(),
            hist == match fee_history {
                Some(h) => Some(*h),
                None => None::<crate::tx_pricing::history::SingleTierFeeHistory>,
            },
            out@ == spec_candidates(txs@.take(i as int), *tier, slot, hist, grace),
    {
        proof {
            assert(txs@.take(i + 1).drop_last() == txs@.take(i as int));
            assert(txs@.take(i + 1).last() == txs@[i as int]);
        }
        let tx = &txs[i];
        let assigned = match tx.tier_preference {
            Some(id) => id.0 == tier.id.0,
            None => false,
        };
        let accepted = if !assigned {
            false
        } else {
            match tx.posted_fee {
                None => false,
                Some(posted_fee) => match fee_history {
                    Some(history) => history.fee_satisfies(
                        tier.id,
                        tier.price_per_byte,
                        tx.submission_slot,
                        slot,
                        tx.bytes,
                        posted_fee,
                        grace,
                    ),
                    None => posted_fee >= tier.required_fee(tx.bytes),
                },
            }
        };
        if accepted {
            out.push(clone_transaction(tx));
        }
    }
    assert(txs@.take(n as int) == txs@);
    out
}

/// Single-tier block selection: the first tier's candidates, in
/// submission order, filled greedily up to the block capacity.
pub open spec fn spec_select_single_tier(
    txs: Seq<Arc<Transaction>>,
    tiers: Seq<crate::tx_pricing::TierQuote>,
    slot: u64,
    block_capacity: u64,
    fee_history: Option<crate::tx_pricing::history::SingleTierFeeHistory>,
) -> Seq<Arc<Transaction>> {
    if tiers.len() == 0 {
        Seq::empty()
    } else {
        spec_fill(
            spec_sort_by_submission(spec_candidates(txs, tiers[0], slot, fee_history, 0)),
            block_capacity,
            block_capacity,
        ).0
    }
}

/// Selects a block's transactions for a single-tier mechanism; see
/// `spec_select_single_tier`.
pub fn select_single_tier_with_history(
    txs: &[Arc<Transaction>],
    snapshot: crate::tx_pricing::PricingSnapshot,
    slot: u64,
    block_capacity: u64,
    fee_history: Option<&crate::tx_pricing::history::SingleTierFeeHistory>,
) -> (r: Vec<Arc<Transaction>>)
    ensures
        r@ == spec_select_single_tier(
            txs@,
            snapshot.tiers@,
            slot,
            block_capacity,
            match fee_history {
                Some(h) => Some(*h),
                None => None,
            },
        ),
{
    if snapshot.tiers.len() == 0 {
        return Vec::new();
    }
    let tier = snapshot.tiers[0];
    let candidates = candidates_for_tier(txs, &tier, slot, fee_history, 0);
    let sorted = sort_by_submission(candidates);
    let mut included: Vec<Arc<Transaction>> = Vec::new();
    let _ = fill_greedy(sorted, block_capacity, block_capacity, &mut included);
    assert(included@ =~= spec_select_single_tier(
        txs@,
        snapshot.tiers@,
        slot,
        block_capacity,
        match fee_history {
            Some(h) => Some(*h),
            None => None,
        },
    ));
    included
}

/// Single-tier selection without a fee history: the posted fee must cover
/// the current required fee.
pub fn select_single_tier(
    txs: &[Arc<Transaction>],
    snapshot: crate::tx_pricing::PricingSnapshot,
    slot: u64,
    block_capacity: u64,
) -> (r: Vec<Arc<Transaction>>)
    ensures
        r@ == spec_select_single_tier(txs@, snapshot.tiers@, slot, block_capacity, None),
{
    select_single_tier_with_history(txs, snapshot, slot, block_capacity, None)
}

} // verus!
