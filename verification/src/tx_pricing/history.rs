//! Histories that let a quoted fee stay valid across repricing:
//! per-tier fee epochs for the single-tier mechanisms, and per tier version
//! assignment records for the tiered mechanism.

use std::collections::BTreeMap;

use vstd::prelude::*;
use vstd::std_specs::iter::IteratorSpec;

use crate::arith::{spec_sat_add_u64, spec_sat_mul_u64, sat_mul_u64};
use crate::model::{TierId, TransactionRejectReason};
use crate::tx_pricing::{Tier, TierLane};

verus! {

/// A price regime of one tier: the price and delay from `start_slot`, and
/// the last slot (before any grace) at which it was still accepted, once it
/// has been superseded.
#[derive(Debug, Clone, Copy, PartialEq, Eq, Structural)]
pub struct FeeEpoch {
    pub start_slot: u64,
    pub price_per_byte: u64,
    pub delay_slots: u64,
    pub valid_through_slot: Option<u64>,
}

/// Fee epochs per tier id.
#[derive(Debug, Clone)]
pub struct SingleTierFeeHistory {
    by_tier: BTreeMap<u64, Vec<FeeEpoch>>,
}

/// The epochs of `tier` after recording `price_per_byte` and `delay_slots`
/// at `slot`: a fresh epoch for an unknown tier; an update of the last
/// epoch's delay when the price is unchanged; otherwise the last epoch is
/// closed at `slot + delay - 1` and a new epoch starts at `slot`.
pub open spec fn spec_record_epochs(
    epochs: Option<Seq<FeeEpoch>>,
    price_per_byte: u64,
    delay_slots: u64,
    slot: u64,
) -> Seq<FeeEpoch> {
    let fresh = FeeEpoch {
        start_slot: slot,
        price_per_byte,
        delay_slots,
        valid_through_slot: None,
    };
    match epochs {
        None => seq![fresh],
        Some(e) => if e.len() == 0 {
            e
        } else {
            let last = e.last();
            if last.price_per_byte == price_per_byte {
                e.update(e.len() - 1, FeeEpoch { delay_slots, ..last })
            } else {
                let grace_end = spec_sat_add_u64(
                    slot,
                    if last.delay_slots == 0 {
                        0
                    } else {
                        (last.delay_slots - 1) as u64
                    },
                );
                e.update(e.len() - 1, FeeEpoch { valid_through_slot: Some(grace_end), ..last }).push(
                    fresh,
                )
            }
        },
    }
}

/// Index of the last epoch of `epochs` that started at or before `slot`.
pub open spec fn spec_epoch_at(epochs: Seq<FeeEpoch>, slot: u64) -> Option<int>
    decreases epochs.len(),
{
    if epochs.len() == 0 {
        None
    } else if epochs.last().start_slot <= slot {
        Some(epochs.len() - 1)
    } else {
        spec_epoch_at(epochs.drop_last(), slot)
    }
}

/// The epoch in force at `slot` is the last one that started by `slot`:
/// it started at or before `slot` and every later epoch starts after it;
/// there is none only when every epoch starts after `slot`.
pub proof fn lemma_epoch_at_is_last_started(epochs: Seq<FeeEpoch>, slot: u64)
    ensures
        spec_epoch_at(epochs, slot) matches Some(i) ==> {
            &&& 0 <= i < epochs.len()
            &&& epochs[i].start_slot <= slot
            &&& forall|j: int| i < j < epochs.len() ==> #[trigger] epochs[j].start_slot > slot
        },
        spec_epoch_at(epochs, slot) is None ==> forall|j: int|
            0 <= j < epochs.len() ==> #[trigger] epochs[j].start_slot > slot,
    decreases epochs.len(),
{
    if epochs.len() > 0 && epochs.last().start_slot > slot {
        let p = epochs.drop_last();
        lemma_epoch_at_is_last_started(p, slot);
        assert forall|j: int| 0 <= j < p.len() implies #[trigger] epochs[j] == p[j] by {}
    }
}

impl SingleTierFeeHistory {
    pub closed spec fn spec_epochs(&self) -> Map<u64, Seq<FeeEpoch>> {
        Map::new(|k: u64| self.by_tier@.contains_key(k), |k: u64| self.by_tier@[k]@)
    }

    /// An empty history.
    pub fn new() -> (r: SingleTierFeeHistory)
        ensures
            r.spec_epochs() == Map::<u64, Seq<FeeEpoch>>::empty(),
    {
        let r = SingleTierFeeHistory { by_tier: BTreeMap::new() };
        assert(r.spec_epochs() =~= Map::<u64, Seq<FeeEpoch>>::empty());
        r
    }

    /// One fresh epoch at `slot` per tier.
    pub fn from_tiers(tiers: &[Tier], slot: u64) -> (r: SingleTierFeeHistory)
        ensures
            forall|k: u64|
                r.spec_epochs().contains_key(k) <==> exists|i: int|
                    0 <= i < tiers@.len() && #[trigger] tiers@[i].id.0 == k,
            forall|i: int|
                0 <= i < tiers@.len() ==> (forall|j: int|
                    i < j < tiers@.len() ==> tiers@[j].id.0 != #[trigger] tiers@[i].id.0)
                    ==> r.spec_epochs()[tiers@[i].id.0] == seq![
                    FeeEpoch {
                        start_slot: slot,
                        price_per_byte: tiers@[i].price,
                        delay_slots: tiers@[i].delay,
                        valid_through_slot: None,
                    },
                ],
    {
        let mut history = SingleTierFeeHistory::new();
        let n = tiers.len();
        for t in 0..n
            invariant
                n == tiers@.len(),
                forall|k: u64|
                    history.spec_epochs().contains_key(k) <==> exists|i: int|
                        0 <= i < t && #[trigger] tiers@[i].id.0 == k,
                forall|i: int|
                    0 <= i < t ==> (forall|j: int|
                        i < j < t ==> tiers@[j].id.0 != #[trigger] tiers@[i].id.0)
                        ==> history.spec_epochs()[tiers@[i].id.0] == seq![
                        FeeEpoch {
                            start_slot: slot,
                            price_per_byte: tiers@[i].price,
                            delay_slots: tiers@[i].delay,
                            valid_through_slot: None,
                        },
                    ],
        {
            let tier = &tiers[t];
            history.replace_tier_with_epoch(tier.id, tier.price, tier.delay, slot);
            assert forall|k: u64|
                history.spec_epochs().contains_key(k) implies exists|i: int|
                    0 <= i < t + 1 && #[trigger] tiers@[i].id.0 == k by {
                if k == tier.id.0 {
                    assert(tiers@[t as int].id.0 == k);
                }
            }
        }
        history
    }

    /// Replaces the tier's epochs with one fresh epoch at `slot`.
    pub fn replace_tier_with_epoch(
        &mut self,
        tier_id: TierId,
        price_per_byte: u64,
        delay_slots: u64,
        slot: u64,
    )
        ensures
            final(self).spec_epochs() == old(self).spec_epochs().insert(
                tier_id.0,
                seq![
                    FeeEpoch {
                        start_slot: slot,
                        price_per_byte,
                        delay_slots,
                        valid_through_slot: None,
                    },
                ],
            ),
    {
        let epochs = vec![FeeEpoch {
            start_slot: slot,
            price_per_byte,
            delay_slots,
            valid_through_slot: None,
        }];
        assert(epochs@ =~= seq![
            FeeEpoch {
                start_slot: slot,
                price_per_byte,
                delay_slots,
                valid_through_slot: None,
            },
        ]);
        self.by_tier.insert(tier_id.0, epochs);
        assert(self.spec_epochs() =~= old(self).spec_epochs().insert(
            tier_id.0,
            seq![
                FeeEpoch {
                    start_slot: slot,
                    price_per_byte,
                    delay_slots,
                    valid_through_slot: None,
                },
            ],
        ));
    }

    /// Records the tier's current price and delay at `slot`; see
    /// `spec_record_epochs`.
    pub fn record_tier_state(
        &mut self,
        tier_id: TierId,
        price_per_byte: u64,
        delay_slots: u64,
        slot: u64,
    )
        ensures
            final(self).spec_epochs() == old(self).spec_epochs().insert(
                tier_id.0,
                spec_record_epochs(
                    if old(self).spec_epochs().contains_key(tier_id.0) {
                        Some(old(self).spec_epochs()[tier_id.0])
                    } else {
                        None
                    },
                    price_per_byte,
                    delay_slots,
                    slot,
                ),
            ),
    {
        let ghost old_epochs = if old(self).spec_epochs().contains_key(tier_id.0) {
            Some(old(self).spec_epochs()[tier_id.0])
        } else {
            None
        };
        let fresh = FeeEpoch {
            start_slot: slot,
            price_per_byte,
            delay_slots,
            valid_through_slot: None,
        };
        let new_epochs = match self.by_tier.remove(&tier_id.0) {
            None => vec![fresh],
            Some(mut epochs) => {
                let n = epochs.len();
                if n > 0 {
                    let last = epochs[n - 1];
                    if last.price_per_byte == price_per_byte {
                        epochs.set(n - 1, FeeEpoch { delay_slots, ..last });
                    } else {
                        let grace_end = slot.saturating_add(last.delay_slots.saturating_sub(1));
                        epochs.set(n - 1, FeeEpoch { valid_through_slot: Some(grace_end), ..last });
                        epochs.push(fresh);
                    }
                }
                epochs
            },
        };
        assert(new_epochs@ =~= spec_record_epochs(old_epochs, price_per_byte, delay_slots, slot));
        self.by_tier.insert(tier_id.0, new_epochs);
        assert(self.spec_epochs() =~= old(self).spec_epochs().insert(
            tier_id.0,
            spec_record_epochs(old_epochs, price_per_byte, delay_slots, slot),
        ));
    }

    pub open spec fn spec_fee_satisfies(
        &self,
        tier_id: TierId,
        current_price_per_byte: u64,
        submission_slot: u64,
        inclusion_slot: u64,
        bytes: u64,
        posted_fee: u64,
        quote_grace_slots: u64,
    ) -> bool {
        let required_now = spec_sat_mul_u64(current_price_per_byte, bytes);
        let fallback = posted_fee >= required_now;
        if !self.spec_epochs().contains_key(tier_id.0) {
            fallback
        } else {
            let epochs = self.spec_epochs()[tier_id.0];
            if epochs.len() == 0 || epochs.last().price_per_byte != current_price_per_byte {
                fallback
            } else {
                match spec_epoch_at(epochs, submission_slot) {
                    None => fallback,
                    Some(i) => {
                        let epoch = epochs[i];
                        if posted_fee < spec_sat_mul_u64(epoch.price_per_byte, bytes) {
                            false
                        } else {
                            match epoch.valid_through_slot {
                                Some(v) => inclusion_slot <= spec_sat_add_u64(v, quote_grace_slots),
                                None => true,
                            }
                        }
                    },
                }
            }
        }
    }

    /// With a usable history (the tier's latest epoch carries the current
    /// price, and epoch `i` is the one in force at `submission_slot`), a
    /// posted fee satisfies the tier exactly when it covers epoch `i`'s
    /// price for the bytes (capped at `u64::MAX`) and, if epoch `i` has been
    /// superseded, the inclusion comes no later than its last valid slot
    /// plus the grace; past that a superseded quote is refused whatever the
    /// fee.
    pub proof fn lemma_fee_satisfies_honours_submission_epoch(
        &self,
        tier_id: TierId,
        current_price_per_byte: u64,
        submission_slot: u64,
        inclusion_slot: u64,
        bytes: u64,
        posted_fee: u64,
        quote_grace_slots: u64,
        i: int,
    )
        requires
            self.spec_epochs().contains_key(tier_id.0),
            self.spec_epochs()[tier_id.0].len() > 0,
            self.spec_epochs()[tier_id.0].last().price_per_byte == current_price_per_byte,
            spec_epoch_at(self.spec_epochs()[tier_id.0], submission_slot) == Some(i),
        ensures
            ({
                let e = self.spec_epochs()[tier_id.0][i];
                let cost: int = e.price_per_byte * bytes;
                let due: int = if cost > u64::MAX {
                    u64::MAX as int
                } else {
                    cost
                };
                let ok = self.spec_fee_satisfies(
                    tier_id,
                    current_price_per_byte,
                    submission_slot,
                    inclusion_slot,
                    bytes,
                    posted_fee,
                    quote_grace_slots,
                );
                &&& ok ==> posted_fee >= due
                &&& e.valid_through_slot is Some && inclusion_slot > e.valid_through_slot->0
                    + quote_grace_slots ==> !ok
                &&& posted_fee >= due && e.valid_through_slot is None ==> ok
                &&& e.valid_through_slot is Some && posted_fee >= due && inclusion_slot
                    <= e.valid_through_slot->0 + quote_grace_slots ==> ok
            }),
    {
        let e = self.spec_epochs()[tier_id.0][i];
        assert(e.price_per_byte * bytes >= 0) by (nonlinear_arith);
    }

    /// Without a usable history for the tier (no epochs, a latest epoch
    /// whose price is not the current one, or no epoch started by
    /// `submission_slot`), a posted fee satisfies the tier exactly when it
    /// covers the current price for the bytes, capped at `u64::MAX`.
    pub proof fn lemma_fee_satisfies_without_history(
        &self,
        tier_id: TierId,
        current_price_per_byte: u64,
        submission_slot: u64,
        inclusion_slot: u64,
        bytes: u64,
        posted_fee: u64,
        quote_grace_slots: u64,
    )
        requires
            !self.spec_epochs().contains_key(tier_id.0) || self.spec_epochs()[tier_id.0].len() == 0
                || self.spec_epochs()[tier_id.0].last().price_per_byte != current_price_per_byte
                || spec_epoch_at(self.spec_epochs()[tier_id.0], submission_slot) is None,
        ensures
            ({
                let cost: int = current_price_per_byte * bytes;
                let due: int = if cost > u64::MAX {
                    u64::MAX as int
                } else {
                    cost
                };
                self.spec_fee_satisfies(
                    tier_id,
                    current_price_per_byte,
                    submission_slot,
                    inclusion_slot,
                    bytes,
                    posted_fee,
                    quote_grace_slots,
                ) == (posted_fee >= due)
            }),
    {
        assert(current_price_per_byte * bytes >= 0) by (nonlinear_arith);
    }

    /// Whether a fee posted at `submission_slot` still satisfies the tier
    /// at `inclusion_slot`: it must cover the price of the epoch in force at
    /// submission, and a superseded epoch is honoured only through its
    /// `valid_through_slot` plus `quote_grace_slots`. Without a usable
    /// history the current price applies.
    pub fn fee_satisfies(
        &self,
        tier_id: TierId,
        current_price_per_byte: u64,
        submission_slot: u64,
        inclusion_slot: u64,
        bytes: u64,
        posted_fee: u64,
        quote_grace_slots: u64,
    ) -> (r: bool)
        ensures
            r == self.spec_fee_satisfies(
                tier_id,
                current_price_per_byte,
                submission_slot,
                inclusion_slot,
                bytes,
                posted_fee,
                quote_grace_slots,
            ),
    {
        let required_now = sat_mul_u64(current_price_per_byte, bytes);
        let epochs = match self.by_tier.get(&tier_id.0) {
            None => {
                return posted_fee >= required_now;
            },
            Some(e) => e,
        };
        assert(self.spec_epochs().contains_key(tier_id.0));
        assert(self.spec_epochs()[tier_id.0] == epochs@);
        let n = epochs.len();
        if n == 0 {
            return posted_fee >= required_now;
        }
        assert(epochs@.take(n as int) == epochs@);
        if epochs[n - 1].price_per_byte != current_price_per_byte {
            return posted_fee >= required_now;
        }
        let mut k = n;
        while k > 0
            invariant
                k <= n == epochs@.len(),
                n > 0,
                self.spec_epochs().contains_key(tier_id.0),
                self.spec_epochs()[tier_id.0] == epochs@,
                epochs@.last().price_per_byte == current_price_per_byte,
                required_now == spec_sat_mul_u64(current_price_per_byte, bytes),
                spec_epoch_at(epochs@, submission_slot) == spec_epoch_at(
                    epochs@.take(k as int),
                    submission_slot,
                ),
            decreases k,
        {
            if epochs[k - 1].start_slot <= submission_slot {
                assert(epochs@.take(k as int).last() == epochs@[k - 1]);
                assert(spec_epoch_at(epochs@, submission_slot) == Some(k - 1));
                let epoch = epochs[k - 1];
                let required_epoch_fee = sat_mul_u64(epoch.price_per_byte, bytes);
                if posted_fee < required_epoch_fee {
                    return false;
                }
                return match epoch.valid_through_slot {
                    Some(valid_through) => inclusion_slot <= valid_through.saturating_add(
                        quote_grace_slots,
                    ),
                    None => true,
                };
            }
            assert(epochs@.take(k as int).drop_last() == epochs@.take(k - 1));
            k = k - 1;
        }
        posted_fee >= required_now
    }
}

impl Default for SingleTierFeeHistory {
    fn default() -> (r: SingleTierFeeHistory)
        ensures
            r.spec_epochs() == Map::<u64, Seq<FeeEpoch>>::empty(),
    {
        SingleTierFeeHistory::new()
    }
}

} // verus!

verus! {

/// The tier-version record behind quoted assignments.
#[derive(Debug, Clone, Copy, PartialEq, Eq, Structural)]
pub struct TierAssignmentRecord {
    pub lane: TierLane,
    pub price_per_byte: u64,
    pub base_fee: u64,
    pub delay_slots: u64,
    pub created_slot: u64,
    pub retired_slot: Option<u64>,
}

/// A tier assignment as quoted to a submitter.
#[derive(Debug, Clone, Copy, PartialEq, Eq, Structural)]
pub struct QuotedAssignment {
    pub tier_id: TierId,
    pub version_created_slot: u64,
    pub posted_fee: u64,
    pub delay_slots: u64,
    pub price_per_byte_at_assignment: u64,
}

/// Records of tier versions, keyed by `(tier id, version created slot)`;
/// retired versions are kept for `history_window_slots` after retirement.
#[derive(Debug)]
pub struct TierAssignmentHistory {
    by_key: BTreeMap<(u64, u64), TierAssignmentRecord>,
    history_window_slots: u64,
}

/// Key of a tier's current version.
pub open spec fn spec_tier_key(tier: Tier) -> (u64, u64) {
    (tier.id.0, tier.version_created_slot)
}

/// Every record's created slot is the version slot of its key.
pub open spec fn records_wf(m: Map<(u64, u64), TierAssignmentRecord>) -> bool {
    forall|k: (u64, u64)| #[trigger] m.contains_key(k) ==> m[k].created_slot == k.1
}

/// `m` with the tier's current version recorded (existing records keep
/// their created slot and are un-retired).
pub open spec fn spec_upsert(
    m: Map<(u64, u64), TierAssignmentRecord>,
    tier: Tier,
    lane: TierLane,
    min_fee: u64,
) -> Map<(u64, u64), TierAssignmentRecord> {
    let key = spec_tier_key(tier);
    let created = if m.contains_key(key) {
        m[key].created_slot
    } else {
        tier.version_created_slot
    };
    m.insert(
        key,
        TierAssignmentRecord {
            lane,
            price_per_byte: tier.price,
            base_fee: min_fee,
            delay_slots: tier.delay,
            created_slot: created,
            retired_slot: None,
        },
    )
}

pub open spec fn spec_upsert_all(
    m: Map<(u64, u64), TierAssignmentRecord>,
    tiers: Seq<Tier>,
    lane: TierLane,
    min_fee: u64,
) -> Map<(u64, u64), TierAssignmentRecord>
    decreases tiers.len(),
{
    if tiers.len() == 0 {
        m
    } else {
        spec_upsert(spec_upsert_all(m, tiers.drop_last(), lane, min_fee), tiers.last(), lane, min_fee)
    }
}

/// Some tier of `tiers` has current version `key`.
pub open spec fn key_active(tiers: Seq<Tier>, key: (u64, u64)) -> bool {
    exists|i: int| 0 <= i < tiers.len() && spec_tier_key(#[trigger] tiers[i]) == key
}

pub open spec fn spec_retire_record(r: TierAssignmentRecord, active: bool, slot: u64) -> TierAssignmentRecord {
    if !active && r.retired_slot is None {
        TierAssignmentRecord { retired_slot: Some(slot), ..r }
    } else {
        r
    }
}

/// Records of inactive versions that are not yet retired are retired at
/// `slot`.
pub open spec fn spec_retire_inactive(
    m: Map<(u64, u64), TierAssignmentRecord>,
    tiers: Seq<Tier>,
    slot: u64,
) -> Map<(u64, u64), TierAssignmentRecord> {
    Map::new(
        |k: (u64, u64)| m.contains_key(k),
        |k: (u64, u64)| spec_retire_record(m[k], key_active(tiers, k), slot),
    )
}

/// A record survives pruning at `slot` unless it was retired more than
/// `window` slots before.
pub open spec fn spec_record_kept(r: TierAssignmentRecord, slot: u64, window: u64) -> bool {
    match r.retired_slot {
        None => true,
        Some(retired) => slot <= spec_sat_add_u64(retired, window),
    }
}

pub open spec fn spec_prune(
    m: Map<(u64, u64), TierAssignmentRecord>,
    slot: u64,
    window: u64,
) -> Map<(u64, u64), TierAssignmentRecord> {
    Map::new(
        |k: (u64, u64)| m.contains_key(k) && spec_record_kept(m[k], slot, window),
        |k: (u64, u64)| m[k],
    )
}

/// The records after synchronising with the live `tiers` at `slot`.
pub open spec fn spec_sync(
    m: Map<(u64, u64), TierAssignmentRecord>,
    tiers: Seq<Tier>,
    slot: u64,
    lane: TierLane,
    min_fee: u64,
    window: u64,
) -> Map<(u64, u64), TierAssignmentRecord> {
    spec_prune(
        spec_retire_inactive(spec_upsert_all(m, tiers, lane, min_fee), tiers, slot),
        slot,
        window,
    )
}

/// The fee a quote of `record` implies for `bytes` at `price_per_byte`.
pub open spec fn spec_quoted_fee(base_fee: u64, price_per_byte: u64, bytes: u64) -> u64 {
    spec_sat_add_u64(base_fee, spec_sat_mul_u64(price_per_byte, bytes))
}

/// Verdict on a quoted assignment against the records: unknown version,
/// mismatching quote, or accepted.
pub open spec fn spec_verify_assignment(
    m: Map<(u64, u64), TierAssignmentRecord>,
    a: QuotedAssignment,
    tx_bytes: u64,
) -> Result<(), TransactionRejectReason> {
    let key = (a.tier_id.0, a.version_created_slot);
    if !m.contains_key(key) {
        Err(TransactionRejectReason::QuotedHistoryUnavailable)
    } else {
        let r = m[key];
        if r.created_slot != a.version_created_slot || r.delay_slots != a.delay_slots
            || r.price_per_byte != a.price_per_byte_at_assignment || a.posted_fee != spec_quoted_fee(
            r.base_fee,
            r.price_per_byte,
            tx_bytes,
        ) || a.posted_fee != spec_quoted_fee(r.base_fee, a.price_per_byte_at_assignment, tx_bytes) {
            Err(TransactionRejectReason::InvalidQuotedAssignment)
        } else {
            Ok(())
        }
    }
}

/// A quoted assignment is admitted only when it matches the recorded tier
/// version exactly: the version exists, its delay and price are the quoted
/// ones, and the posted fee is the version's base fee plus its price for
/// every byte (`u64::MAX` when that does not fit). An unknown version is
/// reported as unavailable history; any mismatching field of a known
/// version as an invalid quote.
pub proof fn lemma_verify_assignment_matches_record(
    m: Map<(u64, u64), TierAssignmentRecord>,
    a: QuotedAssignment,
    tx_bytes: u64,
)
    ensures
        ({
            let key = (a.tier_id.0, a.version_created_slot);
            let r = m[key];
            let fee: int = r.base_fee + r.price_per_byte * tx_bytes;
            let due: int = if fee > u64::MAX {
                u64::MAX as int
            } else {
                fee
            };
            &&& !m.contains_key(key) ==> spec_verify_assignment(m, a, tx_bytes) == Err::<
                (),
                TransactionRejectReason,
            >(TransactionRejectReason::QuotedHistoryUnavailable)
            &&& m.contains_key(key) && (r.delay_slots != a.delay_slots || r.price_per_byte
                != a.price_per_byte_at_assignment || r.created_slot != a.version_created_slot
                || a.posted_fee != due) ==> spec_verify_assignment(m, a, tx_bytes) == Err::<
                (),
                TransactionRejectReason,
            >(TransactionRejectReason::InvalidQuotedAssignment)
            &&& spec_verify_assignment(m, a, tx_bytes) is Ok ==> {
                &&& m.contains_key(key)
                &&& r.delay_slots == a.delay_slots
                &&& r.price_per_byte == a.price_per_byte_at_assignment
                &&& r.created_slot == a.version_created_slot
                &&& a.posted_fee == due
            }
        }),
{
    let key = (a.tier_id.0, a.version_created_slot);
    let r = m[key];
    assert(r.price_per_byte * tx_bytes >= 0) by (nonlinear_arith);
    assert(a.price_per_byte_at_assignment * tx_bytes >= 0) by (nonlinear_arith);
}

fn key_in_tiers(tiers: &[Tier], key: (u64, u64)) -> (r: bool)
    ensures
        r == key_active(tiers@, key),
{
    let n = tiers.len();
    for i in 0..n
        invariant
            n == tiers@.len(),
            forall|j: int| 0 <= j < i ==> spec_tier_key(#[trigger] tiers@[j]) != key,
    {
        if tiers[i].id.0 == key.0 && tiers[i].version_created_slot == key.1 {
            assert(spec_tier_key(tiers@[i as int]) == key);
            return true;
        }
    }
    false
}

fn collect_keys(m: &BTreeMap<(u64, u64), TierAssignmentRecord>) -> (r: Vec<(u64, u64)>)
    ensures
        r@.to_set() == m@.dom(),
        r@.no_duplicates(),
{
    let mut out: Vec<(u64, u64)> = Vec::new();
    for k in it: m.keys()
        invariant
            out@ == it.seq().take(it.index() as int).map_values(|x: &(u64, u64)| *x),
    {
        out.push(*k);
    }
    assert(out@ == vstd::std_specs::btree::spec_keys_iter(m).remaining().unref());
    out
}

proof fn lemma_upsert_all_wf(
    m: Map<(u64, u64), TierAssignmentRecord>,
    tiers: Seq<Tier>,
    lane: TierLane,
    min_fee: u64,
)
    requires
        records_wf(m),
    ensures
        records_wf(spec_upsert_all(m, tiers, lane, min_fee)),
        forall|k: (u64, u64)|
            #[trigger] spec_upsert_all(m, tiers, lane, min_fee).contains_key(k) <==> m.contains_key(k)
                || key_active(tiers, k),
    decreases tiers.len(),
{
    if tiers.len() > 0 {
        let p = tiers.drop_last();
        lemma_upsert_all_wf(m, p, lane, min_fee);
        let last = tiers.last();
        assert forall|k: (u64, u64)|
            #[trigger] spec_upsert_all(m, tiers, lane, min_fee).contains_key(k) <==> m.contains_key(
                k,
            ) || key_active(tiers, k) by {
            if key_active(p, k) {
                let i = choose|i: int| 0 <= i < p.len() && spec_tier_key(#[trigger] p[i]) == k;
                assert(tiers[i] == p[i]);
            }
            if key_active(tiers, k) && k != spec_tier_key(last) {
                let i = choose|i: int| 0 <= i < tiers.len() && spec_tier_key(#[trigger] tiers[i]) == k;
                assert(i < tiers.len() - 1);
                assert(p[i] == tiers[i]);
            }
            if k == spec_tier_key(last) {
                assert(spec_tier_key(tiers[tiers.len() - 1]) == k);
            }
        }
    }
}

proof fn lemma_upsert_all_value(
    m: Map<(u64, u64), TierAssignmentRecord>,
    tiers: Seq<Tier>,
    lane: TierLane,
    min_fee: u64,
    i: int,
)
    requires
        records_wf(m),
        0 <= i < tiers.len(),
        forall|j: int| i < j < tiers.len() ==> spec_tier_key(#[trigger] tiers[j]) != spec_tier_key(tiers[i]),
    ensures
        ({
            let r = spec_upsert_all(m, tiers, lane, min_fee)[spec_tier_key(tiers[i])];
            &&& spec_upsert_all(m, tiers, lane, min_fee).contains_key(spec_tier_key(tiers[i]))
            &&& r.lane == lane
            &&& r.price_per_byte == tiers[i].price
            &&& r.base_fee == min_fee
            &&& r.delay_slots == tiers[i].delay
            &&& r.created_slot == tiers[i].version_created_slot
            &&& r.retired_slot is None
        }),
    decreases tiers.len(),
{
    let p = tiers.drop_last();
    lemma_upsert_all_wf(m, p, lane, min_fee);
    if i < tiers.len() - 1 {
        assert(p[i] == tiers[i]);
        assert forall|j: int| i < j < p.len() implies spec_tier_key(#[trigger] p[j]) != spec_tier_key(
            p[i],
        ) by {
            assert(p[j] == tiers[j]);
        }
        lemma_upsert_all_value(m, p, lane, min_fee, i);
    }
}

fn prune_map(
by_key: &mut BTreeMap<(u64, u64), TierAssignmentRecord>,
slot: u64,
window: u64,
keys: &Vec<(u64, u64)>,
)
    requires
        keys@.to_set() == old(by_key)@.dom(),
        keys@.no_duplicates(),
    ensures
        final(by_key)@ == spec_prune(old(by_key)@, slot, window),
{
    let ghost m = by_key@;
    let nk = keys.len();
    for j in 0..nk
        invariant
            nk == keys@.len(),
            keys@.to_set() == m.dom(),
            keys@.no_duplicates(),
            forall|k: (u64, u64)|
                #[trigger] by_key@.contains_key(k) <==> m.contains_key(k) && (!keys@.take(
                    j as int,
                ).contains(k) || spec_record_kept(m[k], slot, window)),
            forall|k: (u64, u64)| #[trigger] by_key@.contains_key(k) ==> by_key@[k] == m[k],
    {
        let key = keys[j];
        proof {
            assert(keys@[j as int] == key);
            assert(keys@.contains(key));
            assert(keys@.to_set().contains(key));
            assert(keys@.take(j + 1) == keys@.take(j as int).push(key));
            assert(!keys@.take(j as int).contains(key)) by {
                if keys@.take(j as int).contains(key) {
                    let q = choose|q: int| 0 <= q < j && keys@.take(j as int)[q] == key;
                    assert(keys@[q] == keys@[j as int]);
                }
            }
        }
        assert(m.dom().contains(key));
        assert(m.contains_key(key));
        assert(!keys@.take(j as int).contains(key));
        assert(by_key@.contains_key(key));
        assert(by_key@[key] == m[key]);
        let keep = match by_key.get(&key) {
            Some(record) => match record.retired_slot {
                None => true,
                Some(retired_slot) => slot <= retired_slot.saturating_add(
                    window,
                ),
            },
            None => true,
        };
        if !keep {
            by_key.remove(&key);
        }
        assert(by_key@.contains_key(key) <==> spec_record_kept(m[key], slot, window));
        proof {
            assert forall|k: (u64, u64)|
                #[trigger] by_key@.contains_key(k) <==> m.contains_key(k) && (!keys@.take(
                    j + 1,
                ).contains(k) || spec_record_kept(m[k], slot, window)) by {
                if k != key {
                    assert(keys@.take(j + 1).contains(k) == keys@.take(j as int).contains(k));
                } else {
                    assert(keys@.take(j + 1)[j as int] == key);
                }
            }
        }
    }
    proof {
        assert(keys@.take(nk as int) == keys@);
        assert forall|k: (u64, u64)| m.contains_key(k) implies keys@.contains(k) by {
            assert(keys@.to_set().contains(k));
        }
        assert(by_key@ =~= spec_prune(m, slot, window));
    }
}


impl TierAssignmentHistory {
    #[verifier::type_invariant]
    spec fn wf(self) -> bool {
        records_wf(self.by_key@)
    }

    pub closed spec fn spec_records(&self) -> Map<(u64, u64), TierAssignmentRecord> {
        self.by_key@
    }

    pub closed spec fn spec_window(&self) -> u64 {
        self.history_window_slots
    }

    /// Records of `tiers` at slot 0, keeping retired versions for
    /// `16 * tier_update_frequency` slots.
    pub fn from_tiers(tiers: &[Tier], tier_update_frequency: u64, lane: TierLane, min_fee: u64) -> (r:
        TierAssignmentHistory)
        ensures
            r.spec_window() == spec_sat_mul_u64(tier_update_frequency, 16),
            r.spec_records() == spec_sync(
                Map::empty(),
                tiers@,
                0,
                lane,
                min_fee,
                spec_sat_mul_u64(tier_update_frequency, 16),
            ),
    {
        let mut history = TierAssignmentHistory {
            by_key: BTreeMap::new(),
            history_window_slots: sat_mul_u64(tier_update_frequency, 16),
        };
        history.sync_with_tiers(tiers, 0, lane, min_fee);
        history
    }

    /// Records the live tiers' versions, retires versions no longer live,
    /// and prunes versions retired longer than the history window.
    pub fn sync_with_tiers(&mut self, tiers: &[Tier], slot: u64, lane: TierLane, min_fee: u64)
        ensures
            final(self).spec_window() == old(self).spec_window(),
            final(self).spec_records() == spec_sync(
                old(self).spec_records(),
                tiers@,
                slot,
                lane,
                min_fee,
                old(self).spec_window(),
            ),
    {
        proof {
            use_type_invariant(&*self);
        }
        let mut by_key: BTreeMap<(u64, u64), TierAssignmentRecord> = BTreeMap::new();
        std::mem::swap(&mut by_key, &mut self.by_key);
        let window = self.history_window_slots;
        let ghost m0 = by_key@;
        let n = tiers.len();
        for t in 0..n
            invariant
                n == tiers@.len(),
                records_wf(m0),
                by_key@ == spec_upsert_all(m0, tiers@.take(t as int), lane, min_fee),
                                m0 == old(self).spec_records(),
        {
            proof {
                assert(tiers@.take(t + 1).drop_last() == tiers@.take(t as int));
                assert(tiers@.take(t + 1).last() == tiers@[t as int]);
                lemma_upsert_all_wf(m0, tiers@.take(t as int), lane, min_fee);
            }
            let tier = &tiers[t];
            let key = (tier.id.0, tier.version_created_slot);
            let created = match by_key.get(&key) {
                Some(record) => record.created_slot,
                None => tier.version_created_slot,
            };
            let record = TierAssignmentRecord {
                lane,
                price_per_byte: tier.price,
                base_fee: min_fee,
                delay_slots: tier.delay,
                created_slot: created,
                retired_slot: None,
            };
            by_key.insert(key, record);
        }
        proof {
            assert(tiers@.take(n as int) == tiers@);
            lemma_upsert_all_wf(m0, tiers@, lane, min_fee);
        }
        let ghost m1 = by_key@;
        let keys = collect_keys(&by_key);
        let nk = keys.len();
        for j in 0..nk
            invariant
                nk == keys@.len(),
                keys@.to_set() == m1.dom(),
                keys@.no_duplicates(),
                records_wf(m1),
                by_key@.dom() == m1.dom(),
                forall|k: (u64, u64)|
                    #[trigger] m1.contains_key(k) ==> by_key@[k] == if keys@.take(
                        j as int,
                    ).contains(k) {
                        spec_retire_record(m1[k], key_active(tiers@, k), slot)
                    } else {
                        m1[k]
                    },
                        {
            let key = keys[j];
            proof {
                assert(keys@[j as int] == key);
                assert(keys@.contains(key));
                assert(keys@.to_set().contains(key));
                assert(keys@.take(j + 1) == keys@.take(j as int).push(key));
                assert(!keys@.take(j as int).contains(key)) by {
                    if keys@.take(j as int).contains(key) {
                        let q = choose|q: int| 0 <= q < j && keys@.take(j as int)[q] == key;
                        assert(keys@[q] == keys@[j as int]);
                    }
                }
            }
            let active = key_in_tiers(tiers, key);
            if !active {
                if let Some(record) = by_key.get(&key) {
                    let current = *record;
                    if current.retired_slot.is_none() {
                        by_key.insert(key, TierAssignmentRecord { retired_slot: Some(slot), ..current });
                    }
                }
            }
            proof {
                assert forall|k: (u64, u64)| #[trigger] m1.contains_key(k) implies by_key@[k]
                    == if keys@.take(j + 1).contains(k) {
                    spec_retire_record(m1[k], key_active(tiers@, k), slot)
                } else {
                    m1[k]
                } by {
                    if k != key {
                        assert(keys@.take(j + 1).contains(k) == keys@.take(j as int).contains(k));
                    } else {
                        assert(keys@.take(j + 1)[j as int] == key);
                    }
                }
                assert(by_key@.dom() =~= m1.dom());
            }
        }
        let ghost m2 = by_key@;
        proof {
            assert(keys@.take(nk as int) == keys@);
            assert forall|k: (u64, u64)| m1.contains_key(k) implies keys@.contains(k) by {
                assert(keys@.to_set().contains(k));
            }
            assert(m2 =~= spec_retire_inactive(m1, tiers@, slot));
        }
        prune_map(&mut by_key, slot, window, &keys);
        proof {
            assert(by_key@ =~= spec_sync(m0, tiers@, slot, lane, min_fee, window));
        }
        self.by_key = by_key;
    }

    /// Drops records retired more than the history window before `slot`.
    pub fn prune_retired(&mut self, slot: u64)
        ensures
            final(self).spec_records() == spec_prune(old(self).spec_records(), slot, old(self).spec_window()),
            final(self).spec_window() == old(self).spec_window(),
    {
        proof {
            use_type_invariant(&*self);
        }
        let mut by_key: BTreeMap<(u64, u64), TierAssignmentRecord> = BTreeMap::new();
        std::mem::swap(&mut by_key, &mut self.by_key);
        let keys = collect_keys(&by_key);
        prune_map(&mut by_key, slot, self.history_window_slots, &keys);
        proof {
            assert forall|k: (u64, u64)| #[trigger] by_key@.contains_key(k) implies by_key@[k].created_slot == k.1 by {
                assert(old(self).spec_records().contains_key(k));
            }
        }
        self.by_key = by_key;
    }

    /// Checks a quoted assignment against the recorded tier version; see
    /// `spec_verify_assignment`.
    pub fn verify_assignment(&self, assignment: QuotedAssignment, tx_bytes: u64) -> (r: Result<
        (),
        TransactionRejectReason,
    >)
        ensures
            r == spec_verify_assignment(self.spec_records(), assignment, tx_bytes),
    {
        let record = match self.by_key.get(&(assignment.tier_id.0, assignment.version_created_slot)) {
            None => {
                return Err(TransactionRejectReason::QuotedHistoryUnavailable);
            },
            Some(r) => *r,
        };
        let expected_fee = record.base_fee.saturating_add(
            sat_mul_u64(record.price_per_byte, tx_bytes),
        );
        let quoted_expected_fee = record.base_fee.saturating_add(
            sat_mul_u64(assignment.price_per_byte_at_assignment, tx_bytes),
        );
        if record.created_slot != assignment.version_created_slot || record.delay_slots
            != assignment.delay_slots || record.price_per_byte
            != assignment.price_per_byte_at_assignment || assignment.posted_fee != expected_fee
            || assignment.posted_fee != quoted_expected_fee {
            return Err(TransactionRejectReason::InvalidQuotedAssignment);
        }
        Ok(())
    }

    /// The record of a tier version, if kept.
    pub fn record(&self, tier_id: TierId, version_created_slot: u64) -> (r: Option<
        TierAssignmentRecord,
    >)
        ensures
            r == if self.spec_records().contains_key((tier_id.0, version_created_slot)) {
                Some(self.spec_records()[(tier_id.0, version_created_slot)])
            } else {
                None
            },
    {
        match self.by_key.get(&(tier_id.0, version_created_slot)) {
            Some(r) => Some(*r),
            None => None,
        }
    }

    /// Number of slots retired versions are kept.
    pub fn history_window_slots(&self) -> (r: u64)
        ensures
            r == self.spec_window(),
    {
        self.history_window_slots
    }
}

impl Clone for TierAssignmentHistory {
    fn clone(&self) -> (r: TierAssignmentHistory)
        ensures
            r.spec_records() == self.spec_records(),
            r.spec_window() == self.spec_window(),
    {
        proof {
            use_type_invariant(self);
        }
        TierAssignmentHistory {
            by_key: self.by_key.clone(),
            history_window_slots: self.history_window_slots,
        }
    }
}

/// The quote a submitter receives for a live tier: its id, version, delay
/// and price, and the fee `base_fee + price * bytes`.
pub open spec fn spec_quote_for_tier(tier: Tier, base_fee: u64, bytes: u64) -> QuotedAssignment {
    QuotedAssignment {
        tier_id: tier.id,
        version_created_slot: tier.version_created_slot,
        posted_fee: spec_quoted_fee(base_fee, tier.price, bytes),
        delay_slots: tier.delay,
        price_per_byte_at_assignment: tier.price,
    }
}

/// A quote read back after it was written is accepted: after
/// synchronising the history with the live tiers (versions distinct), the
/// quote of any live tier at the history's base fee verifies.
pub proof fn lemma_sync_then_verify_accepts(
    m: Map<(u64, u64), TierAssignmentRecord>,
    tiers: Seq<Tier>,
    slot: u64,
    lane: TierLane,
    min_fee: u64,
    window: u64,
    i: int,
    bytes: u64,
)
    requires
        records_wf(m),
        0 <= i < tiers.len(),
        forall|a: int, b: int|
            0 <= a < b < tiers.len() ==> spec_tier_key(#[trigger] tiers[a]) != spec_tier_key(
                #[trigger] tiers[b],
            ),
    ensures
        spec_verify_assignment(
            spec_sync(m, tiers, slot, lane, min_fee, window),
            spec_quote_for_tier(tiers[i], min_fee, bytes),
            bytes,
        ) == Ok::<(), TransactionRejectReason>(()),
{
    assert forall|j: int| i < j < tiers.len() implies spec_tier_key(#[trigger] tiers[j])
        != spec_tier_key(tiers[i]) by {}
    lemma_upsert_all_value(m, tiers, lane, min_fee, i);
    let key = spec_tier_key(tiers[i]);
    assert(key_active(tiers, key));
}


proof fn lemma_upsert_all_keeps_inactive(
    m: Map<(u64, u64), TierAssignmentRecord>,
    tiers: Seq<Tier>,
    lane: TierLane,
    min_fee: u64,
    key: (u64, u64),
)
    requires
        !key_active(tiers, key),
    ensures
        spec_upsert_all(m, tiers, lane, min_fee).contains_key(key) == m.contains_key(key),
        m.contains_key(key) ==> spec_upsert_all(m, tiers, lane, min_fee)[key] == m[key],
    decreases tiers.len(),
{
    if tiers.len() > 0 {
        assert(!key_active(tiers.drop_last(), key)) by {
            if key_active(tiers.drop_last(), key) {
                let j = choose|j: int|
                    0 <= j < tiers.drop_last().len() && spec_tier_key(
                        #[trigger] tiers.drop_last()[j],
                    ) == key;
                assert(tiers[j] == tiers.drop_last()[j]);
            }
        }
        lemma_upsert_all_keeps_inactive(m, tiers.drop_last(), lane, min_fee, key);
        assert(spec_tier_key(tiers[tiers.len() - 1]) != key);
    }
}

/// A retired tier version is kept for the history window and then
/// dropped: synchronising with tiers that no longer hold the version
/// retires it at `retire_slot`; a later synchronisation at `later_slot`
/// (again without it) keeps it exactly when `later_slot` is at most the
/// window past its retirement.
pub proof fn lemma_retired_version_kept_for_window(
    m: Map<(u64, u64), TierAssignmentRecord>,
    first_tiers: Seq<Tier>,
    later_tiers: Seq<Tier>,
    retire_slot: u64,
    later_slot: u64,
    lane: TierLane,
    min_fee: u64,
    window: u64,
    key: (u64, u64),
)
    requires
        m.contains_key(key),
        m[key].retired_slot is None,
        !key_active(first_tiers, key),
        !key_active(later_tiers, key),
    ensures
        ({
            let m1 = spec_sync(m, first_tiers, retire_slot, lane, min_fee, window);
            let m2 = spec_sync(m1, later_tiers, later_slot, lane, min_fee, window);
            &&& m1.contains_key(key)
            &&& m1[key].retired_slot == Some(retire_slot)
            &&& (m2.contains_key(key) <==> later_slot <= spec_sat_add_u64(retire_slot, window))
        }),
{
    lemma_upsert_all_keeps_inactive(m, first_tiers, lane, min_fee, key);
    let m1 = spec_sync(m, first_tiers, retire_slot, lane, min_fee, window);
    lemma_upsert_all_keeps_inactive(m1, later_tiers, lane, min_fee, key);
}

} // verus!
