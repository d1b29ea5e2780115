//! The two singleton records the contract persists. The host's key-value
//! store owns the durable copies; each handler call reads full copies,
//! mutates them in memory, and writes full replacements back.

use crate::types::{valid_addr, Addr};
use vstd::prelude::*;

verus! {

/// The contract's configuration: the controller identity, the two fixed
/// transfer destinations, the exact amount a deposit must attach, and the
/// native asset the contract is denominated in.
#[derive(Debug, Clone, PartialEq, Eq)]
pub struct Config {
    /// The only identity allowed to withdraw and to reconfigure.
    pub arbiter: Addr,
    /// Destination of the burn share of every deposit.
    pub burn: Addr,
    /// Destination of the development share of every deposit.
    pub development: Addr,
    /// The exact amount a deposit call must attach.
    pub amount: u128,
    /// The native asset withdrawals are denominated in.
    pub denom: String,
}

impl Config {
    /// All three identities are well-formed. Established at instantiation
    /// and preserved by every reconfiguration.
    pub open spec fn wf(&self) -> bool {
        &&& valid_addr(self.arbiter@)
        &&& valid_addr(self.burn@)
        &&& valid_addr(self.development@)
    }
}

/// The running totals apportioned to each bucket. Burn and development
/// totals only ever grow; the jackpot total grows on deposit and shrinks on
/// withdrawal, and never goes negative.
#[derive(Debug, Clone, Copy, PartialEq, Eq, Structural)]
pub struct Record {
    pub burn: u128,
    pub jackpot: u128,
    pub development: u128,
}

/// The configured deposit amount alone, as persisted for narrow readers.
#[derive(Debug, Clone, Copy, PartialEq, Eq, Structural)]
pub struct Limit {
    pub limit: u128,
}

} // verus!
