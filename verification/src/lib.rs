//! Execution core of a custodial fund-distribution contract.
//!
//! The contract accepts fixed-size deposits, splits each deposit into three
//! accumulating buckets (burn, jackpot, development) by fixed percentages,
//! lets a privileged controller withdraw from the jackpot bucket, and lets
//! that controller reconfigure the deposit amount and the controller
//! identity. This crate holds the verified state-transition logic and the
//! data model it operates on; the host runtime, the key-value store, the
//! message codec and the native transfer primitive are collaborators that
//! live outside it.

pub mod contract;
pub mod error;
pub mod math;
pub mod msg;
pub mod state;
pub mod types;
