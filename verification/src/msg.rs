//! The typed requests the host decodes for the contract and the typed
//! responses the host encodes back. Decoding and encoding themselves live
//! with the host; the core only sees these plain values.

use crate::state::{Config, Record};
use crate::types::Addr;
use vstd::prelude::*;

verus! {

/// The instantiation request: the three identities and the fixed deposit
/// amount, plus the native asset the contract is denominated in.
#[derive(Debug, Clone, PartialEq, Eq)]
pub struct InstantiateMsg {
    pub arbiter: String,
    pub burn: String,
    pub development: String,
    pub amount: u128,
    pub denom: String,
}

/// A mutating request.
#[derive(Debug, Clone, PartialEq, Eq)]
pub enum ExecuteMsg {
    /// Deposit the attached payment; any caller.
    Deposit {},
    /// Pay `amount` from the jackpot bucket to `receiver`; controller only.
    Withdraw { receiver: String, amount: u128 },
    /// Replace the configured deposit amount; controller only.
    SetAmount { amount: u128 },
    /// Replace the controller identity; controller only.
    SetOwner { arbiter: String },
}

/// A read-only request.
#[derive(Debug, Clone, PartialEq, Eq)]
pub enum QueryMsg {
    Accounts {},
    Records {},
    Limit {},
}

/// Snapshot of the configuration.
#[derive(Debug, Clone, PartialEq, Eq)]
pub struct AccountsResponse {
    pub arbiter: Addr,
    pub burn: Addr,
    pub development: Addr,
    pub amount: u128,
}

/// Snapshot of the three bucket totals.
#[derive(Debug, Clone, Copy, PartialEq, Eq, Structural)]
pub struct RecordsResponse {
    pub burn: u128,
    pub jackpot: u128,
    pub development: u128,
}

/// The configured deposit amount alone.
#[derive(Debug, Clone, Copy, PartialEq, Eq, Structural)]
pub struct LimitResponse {
    pub limit: u128,
}

/// The answer to a query, ready for the host to encode.
#[derive(Debug, Clone, PartialEq, Eq)]
pub enum QueryAnswer {
    Accounts(AccountsResponse),
    Records(RecordsResponse),
    Limit(LimitResponse),
}

/// The snapshot `Records {}` answers with, as a function of the state.
pub open spec fn spec_records_response(record: Record) -> RecordsResponse {
    RecordsResponse { burn: record.burn, jackpot: record.jackpot, development: record.development }
}

/// The snapshot `Limit {}` answers with, as a function of the state.
pub open spec fn spec_limit_response(config: Config) -> LimitResponse {
    LimitResponse { limit: config.amount }
}

/// Holds when `res` is the snapshot `Accounts {}` answers with for the
/// configuration `config`: every field agrees with the state.
pub open spec fn accounts_response_matches(res: AccountsResponse, config: Config) -> bool {
    &&& res.arbiter@ == config.arbiter@
    &&& res.burn@ == config.burn@
    &&& res.development@ == config.development@
    &&& res.amount == config.amount
}

} // verus!
