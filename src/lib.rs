//! Multi-signature treasury for a pooled-funds insurance system.
//!
//! The library holds the transfer-authorization state machine, its quorum
//! policy, the treasury ledger with its fund allocation, the statistics that
//! follow every transition, and the small shared types of the contracts.

pub mod shared;
pub mod time;
pub mod math;
pub mod treasury;
pub mod yield_aggregator;
