//! Transaction-pricing mechanisms for a linear-Leios style chain: tiered
//! fee markets with delay classes, and chain-derived EIP-1559 style
//! controllers with one or two lanes.

pub mod arith;
pub mod chain_pricing;
pub mod model;
pub mod tx_pricing;
