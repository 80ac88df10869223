//! Economic state machine of a taxed, reward-distributing token.
//!
//! Every transfer withholds a fee (in basis points) for a tax pool; the pool
//! is converted into a reward balance, which is periodically paid back to
//! holders in proportion to their balances. Ledger movements, clocks and
//! signatures belong to the host; this crate decides what they should be.
pub mod error;
pub mod config;
pub mod tax;
pub mod conversion;
pub mod distribution;

pub use error::ErrorCode;
pub use config::{initialize, AccountKey, Initialize, TokenConfig};
pub use tax::{split_tax, transfer, Transfer, TransferEvent};
pub use conversion::{swap_taxes_to_sol, SwapTaxes};
pub use distribution::{
    distribute_rewards, reward_share, DistributeRewards, Distribution, DistributionEvent, Holder,
    Payout,
};
