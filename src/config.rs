use vstd::prelude::*;

use crate::error::ErrorCode;

verus! {

/// Basis points in a whole: a tax rate of 10000 withholds everything.
pub const BPS_DENOMINATOR: u64 = 10000;

/// The tax rate a new scheme starts with: 5%.
pub const INITIAL_TAX_RATE: u16 = 500;

/// The distribution interval a new scheme starts with, in seconds.
pub const INITIAL_DISTRIBUTION_INTERVAL: i64 = 300;

/// A 32-byte account identity, held as two little-endian halves.
#[derive(Clone, Copy, Debug, PartialEq, Eq, Structural)]
pub struct AccountKey {
    pub lo: u128,
    pub hi: u128,
}

/// The mutable parameters of one token scheme.
#[derive(Clone, Debug)]
pub struct TokenConfig {
    pub authority: AccountKey,
    pub mint: AccountKey,
    pub name: String,
    pub symbol: String,
    /// Tax withheld per transfer, in basis points.
    pub tax_rate: u16,
    /// Minimum number of seconds between two distributions.
    pub distribution_interval: i64,
    /// Time of the most recent distribution.
    pub last_distribution: i64,
    /// While set, transfers are refused.
    pub paused: bool,
}

/// Whole tokens minted to the authority when a scheme is set up.
pub const INITIAL_WHOLE_TOKENS: u64 = 1_000_000_000;

/// `10` to the power `n`.
pub open spec fn pow10(n: nat) -> nat
    decreases n,
{
    if n == 0 {
        1
    } else {
        10 * pow10((n - 1) as nat)
    }
}

proof fn lemma_pow10_monotonic(a: nat, b: nat)
    requires
        a <= b,
    ensures
        pow10(a) <= pow10(b),
    decreases b,
{
    if a < b {
        lemma_pow10_monotonic(a, (b - 1) as nat);
    }
}

/// The accounts a new scheme is set up with.
#[derive(Clone, Copy, Debug, PartialEq, Eq, Structural)]
pub struct Initialize {
    /// The account that will control the scheme and receives the initial supply.
    pub authority: AccountKey,
    /// The token's mint.
    pub mint: AccountKey,
}

/// Sets up a scheme at time `now`: 5% tax, a five-minute distribution
/// interval, not paused, and the time of the last distribution set to `now`.
/// Also returns the initial supply to mint to the authority: one billion
/// whole tokens of `decimals` decimal places, which fits in a `u64` for up
/// to ten decimals.
pub fn initialize(accounts: &Initialize, name: String, symbol: String, decimals: u8, now: i64) -> (r: (
    TokenConfig,
    u64,
))
    requires
        decimals <= 10,
    ensures
        r.0.wf(),
        r.0.authority == accounts.authority,
        r.0.mint == accounts.mint,
        r.0.name@ == name@,
        r.0.symbol@ == symbol@,
        r.0.tax_rate == INITIAL_TAX_RATE,
        r.0.distribution_interval == INITIAL_DISTRIBUTION_INTERVAL,
        r.0.last_distribution == now,
        !r.0.paused,
        r.1 == INITIAL_WHOLE_TOKENS * pow10(decimals as nat),
{
    let mut scale: u64 = 1;
    let mut i: u8 = 0;
    while i < decimals
        invariant
            i <= decimals <= 10,
            scale == pow10(i as nat),
        decreases decimals - i,
    {
        proof {
            lemma_pow10_monotonic((i + 1) as nat, 10);
            reveal_with_fuel(pow10, 11);
            assert(pow10(10) == 10000000000);
        }
        scale = scale * 10;
        i = i + 1;
    }
    proof {
        lemma_pow10_monotonic(decimals as nat, 10);
        reveal_with_fuel(pow10, 11);
        assert(pow10(10) == 10000000000);
    }
    let config = TokenConfig {
        authority: accounts.authority,
        mint: accounts.mint,
        name,
        symbol,
        tax_rate: INITIAL_TAX_RATE,
        distribution_interval: INITIAL_DISTRIBUTION_INTERVAL,
        last_distribution: now,
        paused: false,
    };
    (config, INITIAL_WHOLE_TOKENS * scale)
}

impl TokenConfig {
    /// Bytes the host reserves for a stored configuration.
    pub const LEN: usize = 8 + 32 + 32 + 40 + 10 + 2 + 8 + 8 + 1;

    /// The scheme's invariant: the rate is at most 100% and the interval positive.
    pub open spec fn wf(&self) -> bool {
        &&& self.tax_rate <= 10000
        &&& self.distribution_interval > 0
    }

    /// Sets the tax rate, in basis points. Only the authority may, and the
    /// rate may be at most 10000 (everything withheld).
    pub fn set_tax_rate(&mut self, caller: AccountKey, new_rate: u16) -> (r: Result<(), ErrorCode>)
        requires
            old(self).wf(),
        ensures
            final(self).wf(),
            caller != old(self).authority ==> r == Err::<(), ErrorCode>(ErrorCode::Unauthorized),
            caller == old(self).authority && new_rate > 10000 ==> r == Err::<(), ErrorCode>(
                ErrorCode::TaxTooHigh,
            ),
            r is Err ==> *final(self) == *old(self),
            caller == old(self).authority && new_rate <= 10000 ==> r is Ok && *final(self) == (
            TokenConfig { tax_rate: new_rate, ..*old(self) }),
    {
        if caller != self.authority {
            return Err(ErrorCode::Unauthorized);
        }
        if new_rate as u64 > BPS_DENOMINATOR {
            return Err(ErrorCode::TaxTooHigh);
        }
        self.tax_rate = new_rate;
        Ok(())
    }

    /// Sets the minimum number of seconds between distributions. Only the
    /// authority may, and the interval must be positive.
    pub fn set_distribution_interval(&mut self, caller: AccountKey, new_interval: i64) -> (r: Result<
        (),
        ErrorCode,
    >)
        requires
            old(self).wf(),
        ensures
            final(self).wf(),
            caller != old(self).authority ==> r == Err::<(), ErrorCode>(ErrorCode::Unauthorized),
            caller == old(self).authority && new_interval <= 0 ==> r == Err::<(), ErrorCode>(
                ErrorCode::IntervalTooShort,
            ),
            r is Err ==> *final(self) == *old(self),
            caller == old(self).authority && new_interval > 0 ==> r is Ok && *final(self) == (
            TokenConfig { distribution_interval: new_interval, ..*old(self) }),
    {
        if caller != self.authority {
            return Err(ErrorCode::Unauthorized);
        }
        if new_interval <= 0 {
            return Err(ErrorCode::IntervalTooShort);
        }
        self.distribution_interval = new_interval;
        Ok(())
    }

    /// Pauses or resumes transfers. Only the authority may.
    pub fn set_paused(&mut self, caller: AccountKey, paused: bool) -> (r: Result<(), ErrorCode>)
        requires
            old(self).wf(),
        ensures
            final(self).wf(),
            caller != old(self).authority ==> r == Err::<(), ErrorCode>(ErrorCode::Unauthorized)
                && *final(self) == *old(self),
            caller == old(self).authority ==> r is Ok && *final(self) == (TokenConfig {
                paused,
                ..*old(self)
            }),
    {
        if caller != self.authority {
            return Err(ErrorCode::Unauthorized);
        }
        self.paused = paused;
        Ok(())
    }
}

} // verus!
