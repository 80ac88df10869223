use vstd::prelude::*;

use crate::error::ErrorCode;

verus! {

/// Tax tokens per unit of reward at the reference conversion rate.
pub const CONVERSION_DIVISOR: u64 = 1000;

/// The ledger value a conversion reads.
#[derive(Clone, Copy, Debug, PartialEq, Eq, Structural)]
pub struct SwapTaxes {
    /// Balance of the tax pool.
    pub tax_vault_amount: u64,
}

/// Converts `amount` of collected tax into distributable reward at the
/// reference rate, rounding down.
///
/// Fails `InsufficientTaxBalance` when the tax pool holds less than `amount`.
/// On success the host debits the tax pool by `amount` and credits the
/// reward pool by the returned value.
pub fn swap_taxes_to_sol(accounts: &SwapTaxes, amount: u64) -> (r: Result<u64, ErrorCode>)
    ensures
        accounts.tax_vault_amount < amount ==> r == Err::<u64, ErrorCode>(
            ErrorCode::InsufficientTaxBalance,
        ),
        accounts.tax_vault_amount >= amount ==> r == Ok::<u64, ErrorCode>(
            amount / CONVERSION_DIVISOR,
        ),
{
    if accounts.tax_vault_amount < amount {
        return Err(ErrorCode::InsufficientTaxBalance);
    }
    Ok(amount / CONVERSION_DIVISOR)
}

} // verus!
