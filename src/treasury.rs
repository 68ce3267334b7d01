//! The multi-signature treasury: records, ledger, quorum policy and the
//! transfer state machine.

pub mod types;
pub mod contract;
pub mod laws;
