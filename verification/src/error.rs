use vstd::prelude::*;

verus! {

/// The ways in which the contract refuses an execution.
#[derive(Debug, Clone, PartialEq, Eq)]
pub enum ContractError {
    /// The sender may not do what it asked, for the given reason.
    Unauthorized { reason: String },
    /// The coins sent do not cover the price and the fee of the phase.
    InsufficientFunds {},
}

} // verus!
