use vstd::prelude::*;

verus! {

/// Every way a handler call can be rejected. A rejected call leaves the
/// persisted state untouched; the error is the call's sole outcome.
#[derive(Clone, Copy, Debug, PartialEq, Eq, Structural)]
pub enum ContractError {
    /// The caller is not the configured controller.
    Unauthorized,
    /// The attached deposit payment does not exactly equal the configured
    /// deposit amount.
    InvalidAmount,
    /// A supplied identity string is not well-formed.
    InvalidIdentity,
    /// A withdrawal asks for more than the jackpot bucket holds.
    InsufficientBalance,
}

} // verus!
