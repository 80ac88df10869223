use img_token::config::{INITIAL_DISTRIBUTION_INTERVAL, INITIAL_TAX_RATE};
use img_token::{
    distribute_rewards, initialize, reward_share, split_tax, swap_taxes_to_sol, transfer,
    AccountKey, DistributeRewards, ErrorCode, Holder, Initialize, Payout, SwapTaxes,
    TokenConfig, Transfer, TransferEvent,
};

fn key(n: u128) -> AccountKey {
    AccountKey { lo: n, hi: 0 }
}

fn scheme(now: i64) -> TokenConfig {
    let accounts = Initialize { authority: key(1), mint: key(2) };
    initialize(&accounts, "Img".to_string(), "IMG".to_string(), 6, now).0
}

fn holder(n: u128, amount: u64) -> Holder {
    Holder { owner: key(n), amount }
}

#[test]
fn split_five_percent_of_ten_thousand() {
    assert_eq!(split_tax(10000, 500), (500, 9500));
}

#[test]
fn split_rounds_tax_down() {
    assert_eq!(split_tax(19, 500), (0, 19));
    assert_eq!(split_tax(999, 500), (49, 950));
}

#[test]
fn split_parts_add_up() {
    for &rate in &[0u16, 1, 333, 500, 9999, 10000] {
        for &amount in &[1u64, 7, 10000, 123456789, u64::MAX] {
            let (tax, net) = split_tax(amount, rate);
            assert_eq!(tax as u128 + net as u128, amount as u128);
            assert_eq!(tax as u128, amount as u128 * rate as u128 / 10000);
        }
    }
}

#[test]
fn split_full_rate_takes_everything() {
    assert_eq!(split_tax(u64::MAX, 10000), (u64::MAX, 0));
}

#[test]
fn initialize_sets_defaults_and_supply() {
    let accounts = Initialize { authority: key(1), mint: key(2) };
    let (config, supply) = initialize(&accounts, "Img".to_string(), "IMG".to_string(), 6, 1234);
    assert_eq!(config.authority, key(1));
    assert_eq!(config.mint, key(2));
    assert_eq!(config.name, "Img");
    assert_eq!(config.symbol, "IMG");
    assert_eq!(config.tax_rate, INITIAL_TAX_RATE);
    assert_eq!(config.tax_rate, 500);
    assert_eq!(config.distribution_interval, INITIAL_DISTRIBUTION_INTERVAL);
    assert_eq!(config.distribution_interval, 300);
    assert_eq!(config.last_distribution, 1234);
    assert!(!config.paused);
    assert_eq!(supply, 1_000_000_000_000_000);
}

#[test]
fn initialize_supply_at_decimal_bounds() {
    let accounts = Initialize { authority: key(1), mint: key(2) };
    assert_eq!(initialize(&accounts, String::new(), String::new(), 0, 0).1, 1_000_000_000);
    assert_eq!(
        initialize(&accounts, String::new(), String::new(), 10, 0).1,
        10_000_000_000_000_000_000
    );
}

#[test]
fn transfer_splits_amount() {
    let config = scheme(0);
    let parties = Transfer { from: key(10), to: key(11) };
    let event = transfer(&config, &parties, 10000).unwrap();
    assert_eq!(event, TransferEvent { from: key(10), to: key(11), amount: 9500, tax: 500 });
}

#[test]
fn transfer_of_zero_is_invalid() {
    let config = scheme(0);
    let parties = Transfer { from: key(10), to: key(11) };
    assert_eq!(transfer(&config, &parties, 0), Err(ErrorCode::InvalidAmount));
}

#[test]
fn transfer_while_paused_is_refused() {
    let mut config = scheme(0);
    config.set_paused(key(1), true).unwrap();
    let parties = Transfer { from: key(10), to: key(11) };
    for &amount in &[1u64, 10000, u64::MAX] {
        assert_eq!(transfer(&config, &parties, amount), Err(ErrorCode::TransfersPaused));
    }
    config.set_paused(key(1), false).unwrap();
    assert!(transfer(&config, &parties, 1).is_ok());
}

#[test]
fn set_tax_rate_bounds() {
    let mut config = scheme(0);
    assert_eq!(config.set_tax_rate(key(1), 10001), Err(ErrorCode::TaxTooHigh));
    assert_eq!(config.tax_rate, 500);
    assert_eq!(config.set_tax_rate(key(1), 10000), Ok(()));
    assert_eq!(config.tax_rate, 10000);
    let parties = Transfer { from: key(10), to: key(11) };
    let event = transfer(&config, &parties, 777).unwrap();
    assert_eq!((event.amount, event.tax), (0, 777));
}

#[test]
fn setters_require_authority() {
    let mut config = scheme(0);
    assert_eq!(config.set_tax_rate(key(9), 100), Err(ErrorCode::Unauthorized));
    assert_eq!(config.set_distribution_interval(key(9), 100), Err(ErrorCode::Unauthorized));
    assert_eq!(config.set_paused(key(9), true), Err(ErrorCode::Unauthorized));
    assert_eq!(config.tax_rate, 500);
    assert_eq!(config.distribution_interval, 300);
    assert!(!config.paused);
}

#[test]
fn set_distribution_interval_must_be_positive() {
    let mut config = scheme(0);
    assert_eq!(config.set_distribution_interval(key(1), 0), Err(ErrorCode::IntervalTooShort));
    assert_eq!(config.set_distribution_interval(key(1), -5), Err(ErrorCode::IntervalTooShort));
    assert_eq!(config.distribution_interval, 300);
    assert_eq!(config.set_distribution_interval(key(1), 60), Ok(()));
    assert_eq!(config.distribution_interval, 60);
}

#[test]
fn swap_converts_at_reference_rate() {
    assert_eq!(swap_taxes_to_sol(&SwapTaxes { tax_vault_amount: 5000 }, 5000), Ok(5));
    assert_eq!(swap_taxes_to_sol(&SwapTaxes { tax_vault_amount: 5000 }, 2999), Ok(2));
    assert_eq!(swap_taxes_to_sol(&SwapTaxes { tax_vault_amount: 5000 }, 999), Ok(0));
}

#[test]
fn swap_beyond_tax_pool_is_refused() {
    assert_eq!(
        swap_taxes_to_sol(&SwapTaxes { tax_vault_amount: 4999 }, 5000),
        Err(ErrorCode::InsufficientTaxBalance)
    );
}

#[test]
fn share_of_ten_in_a_thousand() {
    assert_eq!(reward_share(10, 100, 1000), 1);
}

#[test]
fn share_too_small_is_skipped() {
    assert_eq!(reward_share(1, 5, 1000), 0);
    let mut config = scheme(0);
    let ledger = DistributeRewards { mint_supply: 1000, reward_vault_lamports: 5 };
    let result = distribute_rewards(&mut config, &ledger, &vec![holder(3, 1)], 300).unwrap();
    assert!(result.payouts.is_empty());
}

#[test]
fn distribution_pays_pro_rata() {
    let mut config = scheme(0);
    let ledger = DistributeRewards { mint_supply: 1000, reward_vault_lamports: 100 };
    let holders = vec![holder(3, 10), holder(4, 0), holder(5, 500), holder(6, 333)];
    let result = distribute_rewards(&mut config, &ledger, &holders, 300).unwrap();
    assert_eq!(
        result.payouts,
        vec![
            Payout { owner: key(3), share: 1 },
            Payout { owner: key(5), share: 50 },
            Payout { owner: key(6), share: 33 },
        ]
    );
    assert_eq!(result.event.timestamp, 300);
    assert_eq!(result.event.amount, 100);
    assert_eq!(config.last_distribution, 300);
}

#[test]
fn distribution_sum_stays_within_reward() {
    let mut config = scheme(0);
    let ledger = DistributeRewards { mint_supply: 7, reward_vault_lamports: 10 };
    let holders = vec![holder(3, 3), holder(4, 2), holder(5, 2)];
    let result = distribute_rewards(&mut config, &ledger, &holders, 300).unwrap();
    let total: u64 = result.payouts.iter().map(|p| p.share).sum();
    assert_eq!(total, 4 + 2 + 2);
    assert!(total <= 10);
}

#[test]
fn distribution_pays_everything_when_even() {
    let mut config = scheme(0);
    let ledger = DistributeRewards { mint_supply: 100, reward_vault_lamports: 50 };
    let holders = vec![holder(3, 60), holder(4, 40)];
    let result = distribute_rewards(&mut config, &ledger, &holders, 300).unwrap();
    let total: u64 = result.payouts.iter().map(|p| p.share).sum();
    assert_eq!(total, 50);
}

#[test]
fn distribution_never_overdraws_pool() {
    let mut config = scheme(0);
    let ledger = DistributeRewards { mint_supply: 10, reward_vault_lamports: 100 };
    let holders = vec![holder(3, 8), holder(4, 8)];
    let result = distribute_rewards(&mut config, &ledger, &holders, 300).unwrap();
    assert_eq!(result.payouts, vec![Payout { owner: key(3), share: 80 }]);
}

#[test]
fn zero_balance_holder_changes_nothing() {
    let ledger = DistributeRewards { mint_supply: 1000, reward_vault_lamports: 977 };
    let with_zero = vec![holder(3, 123), holder(4, 0), holder(5, 456)];
    let without_zero = vec![holder(3, 123), holder(5, 456)];
    let mut a = scheme(0);
    let mut b = scheme(0);
    let ra = distribute_rewards(&mut a, &ledger, &with_zero, 300).unwrap();
    let rb = distribute_rewards(&mut b, &ledger, &without_zero, 300).unwrap();
    assert_eq!(ra.payouts, rb.payouts);
}

#[test]
fn second_distribution_too_early() {
    let mut config = scheme(1000);
    let ledger = DistributeRewards { mint_supply: 1000, reward_vault_lamports: 100 };
    let holders = vec![holder(3, 10)];
    assert!(distribute_rewards(&mut config, &ledger, &holders, 1300).is_ok());
    assert_eq!(
        distribute_rewards(&mut config, &ledger, &holders, 1599).unwrap_err(),
        ErrorCode::TooEarlyToDistribute
    );
    assert_eq!(config.last_distribution, 1300);
    assert!(distribute_rewards(&mut config, &ledger, &holders, 1600).is_ok());
}

#[test]
fn distribution_before_interval_is_too_early() {
    let mut config = scheme(1000);
    let ledger = DistributeRewards { mint_supply: 1000, reward_vault_lamports: 100 };
    assert_eq!(
        distribute_rewards(&mut config, &ledger, &vec![], 1299).unwrap_err(),
        ErrorCode::TooEarlyToDistribute
    );
    assert_eq!(config.last_distribution, 1000);
}

#[test]
fn distribution_with_empty_pool_is_refused() {
    let mut config = scheme(0);
    let ledger = DistributeRewards { mint_supply: 1000, reward_vault_lamports: 0 };
    assert_eq!(
        distribute_rewards(&mut config, &ledger, &vec![holder(3, 10)], 300).unwrap_err(),
        ErrorCode::NoRewardsToDistribute
    );
    assert_eq!(config.last_distribution, 0);
}

#[test]
fn distribution_far_in_the_past_does_not_overflow() {
    let mut config = scheme(i64::MAX - 10);
    let ledger = DistributeRewards { mint_supply: 1000, reward_vault_lamports: 100 };
    assert_eq!(
        distribute_rewards(&mut config, &ledger, &vec![], i64::MAX).unwrap_err(),
        ErrorCode::TooEarlyToDistribute
    );
}
