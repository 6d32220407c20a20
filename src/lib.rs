//! A custodial staking pool: stakers deposit units of one fungible value type
//! into a single vault, withdraw their principal in full, and claim a daily
//! yield computed from elapsed whole days and a set of performance metrics.
//!
//! Every instruction is atomic: it either applies all of its effects to the
//! accounts it is handed, or fails with an error and leaves them unchanged.
pub mod authority;
pub mod key;
pub mod laws;
pub mod reward;
pub mod solvency;
pub mod staking;
pub mod state;
pub mod transfer;
