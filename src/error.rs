use vstd::prelude::*;

verus! {

/// Every way an operation of the token scheme can be refused.
#[derive(Clone, Copy, Debug, PartialEq, Eq, Structural)]
pub enum ErrorCode {
    /// A transfer of zero tokens.
    InvalidAmount,
    /// The tax pool holds less than the amount asked to convert.
    InsufficientTaxBalance,
    /// The distribution interval has not elapsed since the last distribution.
    TooEarlyToDistribute,
    /// The reward pool is empty.
    NoRewardsToDistribute,
    /// The caller is not the scheme's authority.
    Unauthorized,
    /// A tax rate above 10000 basis points.
    TaxTooHigh,
    /// A distribution interval that is not positive.
    IntervalTooShort,
    /// Transfers are paused.
    TransfersPaused,
}

} // verus!
