use vstd::prelude::*;

verus! {

/// Why an operation on the stores, an adapter or the agent was refused.
#[derive(Clone, Copy, Debug, PartialEq, Eq, Structural)]
pub enum ScopeError {
    /// The stores have not been created yet.
    ConfigurationMissing,
    /// A slot index at or beyond the capacity of the stores.
    OutOfRange,
    /// A record of the wrong shape, or an account that does not belong to the operation.
    UnexpectedAccount,
    /// A record that is stale or cannot be trusted.
    PriceNotValid,
    /// A result that does not fit the fixed-point representation.
    MathOverflow,
    /// The ledger rejected an operation, or it timed out.
    SubmissionError,
    /// A change of the mapping attempted by someone other than the authority.
    UnauthorizedMapping,
}

} // verus!
