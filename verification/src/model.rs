//! Plain data shared by the pricing mechanisms: identifiers, transactions,
//! urgency profiles, per-lane quotes and window aggregates.

use vstd::prelude::*;

use crate::chain_pricing::Lane;
use crate::tx_pricing::BlockKind;

verus! {

/// Identifier of a pricing tier.
#[derive(Debug, Clone, Copy, PartialEq, Eq, Structural, Hash)]
pub struct TierId(pub u64);

impl TierId {
    /// The tier id with number `id`.
    pub fn new(id: u64) -> (r: TierId)
        ensures
            r.0 == id,
    {
        TierId(id)
    }

    /// The number of this tier id.
    pub fn value(&self) -> (r: u64)
        ensures
            r == self.0,
    {
        self.0
    }
}

/// Identifier of a transaction.
#[derive(Debug, Clone, Copy, PartialEq, Eq, Structural, Hash)]
pub struct TransactionId(pub u64);

impl TransactionId {
    /// The transaction id with number `id`.
    pub fn new(id: u64) -> (r: TransactionId)
        ensures
            r.0 == id,
    {
        TransactionId(id)
    }
}

/// Identifier of the actor that submitted a transaction.
#[derive(Debug, Clone, Copy, PartialEq, Eq, Structural, Hash)]
pub struct ActorId(pub u64);

impl ActorId {
    /// The actor id with number `id`.
    pub fn new(id: u64) -> (r: ActorId)
        ensures
            r.0 == id,
    {
        ActorId(id)
    }
}

/// Identifier of a block on the chain.
#[derive(Debug, Clone, Copy, PartialEq, Eq, Structural, Hash)]
pub struct BlockId(pub u64);

/// How the value of a transaction to its submitter depends on the delay
/// until inclusion.
#[derive(Debug, Clone, Copy, PartialEq, Eq, Structural)]
pub enum UrgencyProfile {
    /// The full value is kept whatever the delay.
    Indifferent,
    /// The full value is kept up to `max_slots` of delay, nothing after.
    TimeBoxed { max_slots: u64 },
}

impl UrgencyProfile {
    pub open spec fn spec_value_at_delay(self, value: u64, delay: u64) -> u64 {
        match self {
            UrgencyProfile::Indifferent => value,
            UrgencyProfile::TimeBoxed { max_slots } => if delay <= max_slots {
                value
            } else {
                0
            },
        }
    }

    /// Value retained by a transaction worth `value` when it is included
    /// after `delay` units.
    pub fn value_at_delay(&self, value: u64, delay: u64) -> (r: u64)
        ensures
            r == self.spec_value_at_delay(value, delay),
    {
        match self {
            UrgencyProfile::Indifferent => value,
            UrgencyProfile::TimeBoxed { max_slots } => if delay <= *max_slots {
                value
            } else {
                0
            },
        }
    }
}

/// Reasons for which a transaction is refused at admission.
#[derive(Debug, Clone, Copy, PartialEq, Eq, Structural)]
pub enum TransactionRejectReason {
    /// The quoted tier version is no longer (or was never) in the history.
    QuotedHistoryUnavailable,
    /// The quoted assignment is incomplete or does not match the history.
    InvalidQuotedAssignment,
}

/// A submitted transaction, with the tier assignment(s) quoted to it.
#[derive(Debug, Clone)]
pub struct Transaction {
    pub id: TransactionId,
    pub actor_id: ActorId,
    pub shard: u64,
    pub bytes: u64,
    pub submission_slot: u64,
    pub value: u64,
    pub urgency: UrgencyProfile,
    pub posted_fee: Option<u64>,
    pub tier_preference: Option<TierId>,
    pub tier_version_created_slot: Option<u64>,
    pub tier_delay_slots: Option<u64>,
    pub tier_price_per_byte_at_assignment: Option<u64>,
    pub eb_tier_preference: Option<TierId>,
    pub eb_tier_version_created_slot: Option<u64>,
    pub eb_posted_fee: Option<u64>,
    pub eb_tier_delay_slots: Option<u64>,
    pub eb_tier_price_per_byte_at_assignment: Option<u64>,
    pub assigned_block_kind: Option<BlockKind>,
    pub mempool_entry_slot: Option<u64>,
    pub mempool_entry_rb_index: Option<u64>,
    pub input_id: u64,
    pub overcollateralization_factor: u64,
    pub urgency_component_index: Option<u64>,
}

/// Per-lane quote (price per byte) carried by a block.
#[derive(Debug, Clone, Copy, PartialEq, Eq, Structural)]
pub struct PerLaneQuote {
    pub standard: u64,
    pub priority: u64,
}

impl PerLaneQuote {
    /// Both lanes at the same quote.
    pub fn flat(quote: u64) -> (r: PerLaneQuote)
        ensures
            r.standard == quote,
            r.priority == quote,
    {
        PerLaneQuote { standard: quote, priority: quote }
    }

    pub open spec fn spec_get(self, lane: Lane) -> u64 {
        match lane {
            Lane::Standard => self.standard,
            Lane::Priority => self.priority,
        }
    }

    /// Quote of one lane.
    pub fn get(&self, lane: Lane) -> (r: u64)
        ensures
            r == self.spec_get(lane),
    {
        match lane {
            Lane::Standard => self.standard,
            Lane::Priority => self.priority,
        }
    }
}

/// Capacity-weighted window aggregate carried by a block: per-lane sums of
/// bytes and capacities over the samples in the window, and the number of
/// samples.
#[derive(Debug, Clone, Copy, PartialEq, Eq, Structural)]
pub struct WindowAggregate {
    pub standard_sum_bytes: u128,
    pub standard_sum_capacity: u128,
    pub priority_sum_bytes: u128,
    pub priority_sum_capacity: u128,
    pub blocks_in_window: u64,
}

impl WindowAggregate {
    pub open spec fn spec_zero() -> WindowAggregate {
        WindowAggregate {
            standard_sum_bytes: 0,
            standard_sum_capacity: 0,
            priority_sum_bytes: 0,
            priority_sum_capacity: 0,
            blocks_in_window: 0,
        }
    }

    /// The empty aggregate.
    pub fn zero() -> (r: WindowAggregate)
        ensures
            r == WindowAggregate::spec_zero(),
    {
        WindowAggregate {
            standard_sum_bytes: 0,
            standard_sum_capacity: 0,
            priority_sum_bytes: 0,
            priority_sum_capacity: 0,
            blocks_in_window: 0,
        }
    }

    pub open spec fn spec_aggregate_util(self, lane: Lane) -> (u128, u128) {
        match lane {
            Lane::Standard => if self.standard_sum_capacity == 0 {
                (0, 1)
            } else {
                (self.standard_sum_bytes, self.standard_sum_capacity)
            },
            Lane::Priority => if self.priority_sum_capacity == 0 {
                (0, 1)
            } else {
                (self.priority_sum_bytes, self.priority_sum_capacity)
            },
        }
    }

    /// Utilisation of one lane over the window as `(bytes, capacity)`;
    /// `(0, 1)` when the lane has no capacity in the window.
    pub fn aggregate_util(&self, lane: Lane) -> (r: (u128, u128))
        ensures
            r == self.spec_aggregate_util(lane),
    {
        match lane {
            Lane::Standard => if self.standard_sum_capacity == 0 {
                (0, 1)
            } else {
                (self.standard_sum_bytes, self.standard_sum_capacity)
            },
            Lane::Priority => if self.priority_sum_capacity == 0 {
                (0, 1)
            } else {
                (self.priority_sum_bytes, self.priority_sum_capacity)
            },
        }
    }
}

} // verus!
