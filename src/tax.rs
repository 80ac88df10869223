use vstd::prelude::*;

use crate::config::{AccountKey, TokenConfig, BPS_DENOMINATOR};
use crate::error::ErrorCode;

verus! {

/// The tax withheld from `amount` at `rate_bps` basis points, rounded down.
pub open spec fn tax_of(amount: nat, rate_bps: nat) -> nat {
    amount * rate_bps / 10000
}

/// Splits `amount` into `(tax, net)`: the tax is rounded down, so the sender
/// keeps the remainder, and the two parts always add up to `amount`.
pub fn split_tax(amount: u64, tax_rate_bps: u16) -> (r: (u64, u64))
    requires
        tax_rate_bps <= 10000,
    ensures
        r.0 == tax_of(amount as nat, tax_rate_bps as nat),
        r.0 + r.1 == amount,
        r.0 <= amount,
{
    assert(amount as u128 * tax_rate_bps as u128 <= u64::MAX as u128 * 10000) by (nonlinear_arith)
        requires
            tax_rate_bps <= 10000,
    ;
    let wide: u128 = amount as u128 * tax_rate_bps as u128;
    assert(wide <= amount as u128 * 10000) by (nonlinear_arith)
        requires
            wide == amount as u128 * tax_rate_bps as u128,
            tax_rate_bps <= 10000,
    ;
    let tax: u128 = wide / BPS_DENOMINATOR as u128;
    assert(tax <= amount) by (nonlinear_arith)
        requires
            tax == wide / 10000,
            wide <= amount * 10000,
    ;
    let tax: u64 = tax as u64;
    (tax, amount - tax)
}

/// The two parties of a transfer, as the host identifies their accounts.
#[derive(Clone, Copy, Debug, PartialEq, Eq, Structural)]
pub struct Transfer {
    pub from: AccountKey,
    pub to: AccountKey,
}

/// Record of a completed transfer: `amount` went to the recipient and `tax`
/// to the tax pool.
#[derive(Clone, Copy, Debug, PartialEq, Eq, Structural)]
pub struct TransferEvent {
    pub from: AccountKey,
    pub to: AccountKey,
    pub amount: u64,
    pub tax: u64,
}

/// Decides a transfer of `amount` under `config`.
///
/// On success the host moves `amount` of the event from `from` to `to` and
/// `tax` from `from` to the tax pool, as one unit, and then emits the event.
pub fn transfer(config: &TokenConfig, accounts: &Transfer, amount: u64) -> (r: Result<TransferEvent, ErrorCode>)
    requires
        config.wf(),
    ensures
        amount == 0 ==> r == Err::<TransferEvent, ErrorCode>(ErrorCode::InvalidAmount),
        amount > 0 && config.paused ==> r == Err::<TransferEvent, ErrorCode>(ErrorCode::TransfersPaused),
        amount > 0 && !config.paused ==> r == Ok::<TransferEvent, ErrorCode>(TransferEvent {
            from: accounts.from,
            to: accounts.to,
            amount: (amount - tax_of(amount as nat, config.tax_rate as nat)) as u64,
            tax: tax_of(amount as nat, config.tax_rate as nat) as u64,
        }),
{
    if amount == 0 {
        return Err(ErrorCode::InvalidAmount);
    }
    if config.paused {
        return Err(ErrorCode::TransfersPaused);
    }
    let (tax, net) = split_tax(amount, config.tax_rate);
    Ok(TransferEvent { from: accounts.from, to: accounts.to, amount: net, tax })
}

} // verus!
