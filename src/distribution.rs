use vstd::prelude::*;

use crate::config::{AccountKey, TokenConfig};
use crate::error::ErrorCode;

verus! {

/// One entry of a holder snapshot: the account to pay and its token balance.
#[derive(Clone, Copy, Debug, PartialEq, Eq, Structural)]
pub struct Holder {
    pub owner: AccountKey,
    pub amount: u64,
}

/// A reward payment owed to one holder.
#[derive(Clone, Copy, Debug, PartialEq, Eq, Structural)]
pub struct Payout {
    pub owner: AccountKey,
    pub share: u64,
}

/// The ledger values a distribution reads.
#[derive(Clone, Copy, Debug, PartialEq, Eq, Structural)]
pub struct DistributeRewards {
    /// Total outstanding token supply.
    pub mint_supply: u64,
    /// Balance of the reward pool.
    pub reward_vault_lamports: u64,
}

/// Record of a distribution: when it ran and the reward balance it shared out.
#[derive(Clone, Copy, Debug, PartialEq, Eq, Structural)]
pub struct DistributionEvent {
    pub timestamp: i64,
    pub amount: u64,
}

/// What a distribution decided: the payments, in holder order, and its event.
#[derive(Clone, Debug)]
pub struct Distribution {
    pub payouts: Vec<Payout>,
    pub event: DistributionEvent,
}

/// A holder's pro-rata share of `reward`, rounded down.
pub open spec fn share_of(balance: nat, reward: nat, supply: nat) -> nat {
    balance * reward / supply
}

/// Sum of the payments in `ps`.
pub open spec fn total_paid(ps: Seq<Payout>) -> nat
    decreases ps.len(),
{
    if ps.len() == 0 {
        0
    } else {
        total_paid(ps.drop_last()) + ps.last().share as nat
    }
}

/// Sum of the balances in a holder snapshot.
pub open spec fn balance_sum(hs: Seq<Holder>) -> nat
    decreases hs.len(),
{
    if hs.len() == 0 {
        0
    } else {
        balance_sum(hs.drop_last()) + hs.last().amount as nat
    }
}

/// Sum of the pro-rata shares of every holder in a snapshot.
pub open spec fn share_sum(hs: Seq<Holder>, reward: nat, supply: nat) -> nat
    decreases hs.len(),
{
    if hs.len() == 0 {
        0
    } else {
        share_sum(hs.drop_last(), reward, supply) + share_of(hs.last().amount as nat, reward, supply)
    }
}

/// Sum of the rounding remainders `balance * reward % supply` of a snapshot.
pub open spec fn remainder_sum(hs: Seq<Holder>, reward: nat, supply: nat) -> nat
    decreases hs.len(),
{
    if hs.len() == 0 {
        0
    } else {
        remainder_sum(hs.drop_last(), reward, supply) + (hs.last().amount as nat * reward) % supply
    }
}

/// The payments of a distribution of `reward` over `hs`, in holder order.
///
/// A holder with a zero balance or a zero share is skipped, and so is one
/// whose share the reward pool can no longer cover; what is not paid stays
/// in the pool.
pub open spec fn payouts(hs: Seq<Holder>, reward: nat, supply: nat) -> Seq<Payout>
    decreases hs.len(),
{
    if hs.len() == 0 {
        Seq::empty()
    } else {
        let prev = payouts(hs.drop_last(), reward, supply);
        let h = hs.last();
        let s = share_of(h.amount as nat, reward, supply);
        if h.amount == 0 || s == 0 || total_paid(prev) + s > reward {
            prev
        } else {
            prev.push(Payout { owner: h.owner, share: s as u64 })
        }
    }
}

/// Whether a distribution at `now` comes before the interval has elapsed.
pub open spec fn too_early(c: TokenConfig, now: int) -> bool {
    now < c.last_distribution + c.distribution_interval
}

/// The configuration after a successful distribution at `now`.
pub open spec fn after_distribution(c: TokenConfig, now: i64) -> TokenConfig {
    TokenConfig { last_distribution: now, ..c }
}

proof fn lemma_total_paid_push(ps: Seq<Payout>, p: Payout)
    ensures
        total_paid(ps.push(p)) == total_paid(ps) + p.share,
{
    assert(ps.push(p).drop_last() =~= ps);
}

/// Whatever the snapshot, a distribution never pays out more than the reward balance.
pub proof fn lemma_payouts_within_reward(hs: Seq<Holder>, reward: nat, supply: nat)
    ensures
        total_paid(payouts(hs, reward, supply)) <= reward,
    decreases hs.len(),
{
    if hs.len() > 0 {
        lemma_payouts_within_reward(hs.drop_last(), reward, supply);
        let prev = payouts(hs.drop_last(), reward, supply);
        let h = hs.last();
        lemma_total_paid_push(prev, Payout { owner: h.owner, share: share_of(h.amount as nat, reward, supply) as u64 });
    }
}

proof fn lemma_shares_and_remainders(hs: Seq<Holder>, reward: nat, supply: nat)
    requires
        supply > 0,
    ensures
        share_sum(hs, reward, supply) * supply + remainder_sum(hs, reward, supply) == balance_sum(hs)
            * reward,
    decreases hs.len(),
{
    if hs.len() > 0 {
        let rest = hs.drop_last();
        let x = hs.last().amount as nat * reward;
        lemma_shares_and_remainders(rest, reward, supply);
        vstd::arithmetic::div_mod::lemma_fundamental_div_mod(x as int, supply as int);
        let q = x / supply;
        let m = x % supply;
        assert(share_sum(hs, reward, supply) == share_sum(rest, reward, supply) + q);
        assert(remainder_sum(hs, reward, supply) == remainder_sum(rest, reward, supply) + m);
        assert(balance_sum(hs) == balance_sum(rest) + hs.last().amount as nat);
        assert(share_sum(hs, reward, supply) * supply + remainder_sum(hs, reward, supply)
            == balance_sum(hs) * reward) by (nonlinear_arith)
            requires
                share_sum(hs, reward, supply) == share_sum(rest, reward, supply) + q,
                remainder_sum(hs, reward, supply) == remainder_sum(rest, reward, supply) + m,
                balance_sum(hs) == balance_sum(rest) + hs.last().amount as nat,
                x == hs.last().amount as nat * reward,
                x == supply * q + m,
                share_sum(rest, reward, supply) * supply + remainder_sum(rest, reward, supply)
                    == balance_sum(rest) * reward,
        ;
    } else {
        assert(0 * supply + 0 == 0 * reward) by (nonlinear_arith);
    }
}

proof fn lemma_zero_remainders(hs: Seq<Holder>, reward: nat, supply: nat, i: int)
    requires
        supply > 0,
        remainder_sum(hs, reward, supply) == 0,
        0 <= i < hs.len(),
    ensures
        (hs[i].amount as nat * reward) % supply == 0,
    decreases hs.len(),
{
    let rest = hs.drop_last();
    assert(remainder_sum(hs, reward, supply) == remainder_sum(rest, reward, supply) + (
    hs.last().amount as nat * reward) % supply);
    if i < hs.len() - 1 {
        assert(rest[i] == hs[i]);
        lemma_zero_remainders(rest, reward, supply, i);
    }
}

/// When the snapshot holds no more than the total supply, every holder with a
/// positive share is paid in full; the shares add up to at most the reward
/// balance, and to exactly the reward balance only when every holder's
/// `balance * reward` divides evenly by the supply.
pub proof fn lemma_shares_cover_snapshot(hs: Seq<Holder>, reward: u64, supply: u64)
    requires
        supply > 0,
        balance_sum(hs) <= supply,
    ensures
        total_paid(payouts(hs, reward as nat, supply as nat)) == share_sum(hs, reward as nat, supply as nat),
        share_sum(hs, reward as nat, supply as nat) <= reward,
        share_sum(hs, reward as nat, supply as nat) == reward ==> forall|i: int|
            0 <= i < hs.len() ==> (#[trigger] hs[i].amount as nat * reward as nat) % (supply as nat) == 0,
    decreases hs.len(),
{
    let (reward, supply) = (reward as nat, supply as nat);
    let total = share_sum(hs, reward, supply);
    let rems = remainder_sum(hs, reward, supply);
    lemma_shares_and_remainders(hs, reward, supply);
    assert(balance_sum(hs) * reward <= supply * reward) by (nonlinear_arith)
        requires
            balance_sum(hs) <= supply,
    ;
    assert(total <= reward) by (nonlinear_arith)
        requires
            total * supply + rems == balance_sum(hs) * reward,
            balance_sum(hs) * reward <= supply * reward,
            supply > 0,
    ;
    if total == reward {
        assert(rems == 0) by (nonlinear_arith)
            requires
                total * supply + rems == balance_sum(hs) * reward,
                balance_sum(hs) * reward <= supply * reward,
                total == reward,
        ;
        assert forall|i: int| 0 <= i < hs.len() implies (#[trigger] hs[i].amount as nat * reward)
            % supply == 0 by {
            lemma_zero_remainders(hs, reward, supply, i);
        }
    }
    if hs.len() > 0 {
        let rest = hs.drop_last();
        let h = hs.last();
        lemma_shares_cover_snapshot(rest, reward as u64, supply as u64);
        let prev = payouts(rest, reward, supply);
        let s = share_of(h.amount as nat, reward, supply);
        if h.amount == 0 {
            assert(0 * reward / supply == 0);
        }
        assert(share_sum(hs, reward, supply) == share_sum(rest, reward, supply) + s);
        lemma_total_paid_push(prev, Payout { owner: h.owner, share: s as u64 });
    }
}

/// A holder with a zero balance changes nothing: taking it out of the snapshot
/// leaves every other holder's payment, and their order, as they were.
pub proof fn lemma_zero_balance_holder_ignored(hs: Seq<Holder>, i: int, reward: nat, supply: nat)
    requires
        0 <= i < hs.len(),
        hs[i].amount == 0,
    ensures
        payouts(hs.remove(i), reward, supply) == payouts(hs, reward, supply),
    decreases hs.len(),
{
    if i == hs.len() - 1 {
        assert(hs.remove(i) =~= hs.drop_last());
    } else {
        let t = hs.remove(i);
        assert(t.drop_last() =~= hs.drop_last().remove(i));
        assert(t.last() == hs.last());
        lemma_zero_balance_holder_ignored(hs.drop_last(), i, reward, supply);
    }
}

/// After a distribution at `first`, a distribution at any `second` less than
/// one interval later is too early.
pub proof fn lemma_second_distribution_too_early(c: TokenConfig, first: i64, second: i64)
    requires
        second < first + c.distribution_interval,
    ensures
        too_early(after_distribution(c, first), second as int),
{
}

/// A holder's pro-rata share of the reward balance, rounded down.
pub fn reward_share(balance: u64, reward_balance: u64, total_supply: u64) -> (r: u128)
    requires
        total_supply > 0,
    ensures
        r == share_of(balance as nat, reward_balance as nat, total_supply as nat),
{
    assert(balance as u128 * reward_balance as u128 <= u64::MAX as u128 * u64::MAX as u128) by (nonlinear_arith);
    (balance as u128 * reward_balance as u128) / total_supply as u128
}

/// Decides a distribution of the reward pool at time `now` over the holder
/// snapshot `holders`, walked once and in order.
///
/// Fails `TooEarlyToDistribute` before `distribution_interval` seconds have
/// passed since the last distribution, then `NoRewardsToDistribute` when the
/// reward pool is empty; on failure the configuration is left untouched. On
/// success the configuration records `now` as the last distribution, and the
/// payouts are those of `payouts`: the host debits the reward pool and credits
/// each owner by its share. The rounding dust stays in the pool.
pub fn distribute_rewards(
    config: &mut TokenConfig,
    accounts: &DistributeRewards,
    holders: &Vec<Holder>,
    now: i64,
) -> (r: Result<Distribution, ErrorCode>)
    requires
        old(config).wf(),
        accounts.mint_supply > 0,
    ensures
        final(config).wf(),
        final(config).last_distribution >= old(config).last_distribution,
        too_early(*old(config), now as int) ==> r == Err::<Distribution, ErrorCode>(
            ErrorCode::TooEarlyToDistribute,
        ),
        !too_early(*old(config), now as int) && accounts.reward_vault_lamports == 0 ==> r
            == Err::<Distribution, ErrorCode>(ErrorCode::NoRewardsToDistribute),
        r is Err ==> *final(config) == *old(config),
        !too_early(*old(config), now as int) && accounts.reward_vault_lamports > 0 ==> {
            &&& r is Ok
            &&& *final(config) == after_distribution(*old(config), now)
            &&& r->Ok_0.payouts@ == payouts(
                holders@,
                accounts.reward_vault_lamports as nat,
                accounts.mint_supply as nat,
            )
            &&& total_paid(r->Ok_0.payouts@) <= accounts.reward_vault_lamports
            &&& r->Ok_0.event == (DistributionEvent {
                timestamp: now,
                amount: accounts.reward_vault_lamports,
            })
        },
{
    if (now as i128) < config.last_distribution as i128 + config.distribution_interval as i128 {
        return Err(ErrorCode::TooEarlyToDistribute);
    }
    let total_supply = accounts.mint_supply;
    let reward_balance = accounts.reward_vault_lamports;
    if reward_balance == 0 {
        return Err(ErrorCode::NoRewardsToDistribute);
    }
    let ghost reward = reward_balance as nat;
    let ghost supply = total_supply as nat;
    let mut paid: Vec<Payout> = Vec::new();
    let mut remaining: u64 = reward_balance;
    let mut i: usize = 0;
    while i < holders.len()
        invariant
            i <= holders.len(),
            total_supply > 0,
            reward == reward_balance,
            supply == total_supply,
            paid@ == payouts(holders@.subrange(0, i as int), reward, supply),
            total_paid(paid@) <= reward,
            remaining == reward - total_paid(paid@),
        decreases holders.len() - i,
    {
        let holder = holders[i];
        proof {
            let prefix = holders@.subrange(0, i as int + 1);
            assert(prefix.drop_last() =~= holders@.subrange(0, i as int));
            assert(prefix.last() == holder);
        }
        if holder.amount != 0 {
            let share = reward_share(holder.amount, reward_balance, total_supply);
            if share != 0 && share <= remaining as u128 {
                let share = share as u64;
                proof {
                    lemma_total_paid_push(paid@, Payout { owner: holder.owner, share });
                }
                paid.push(Payout { owner: holder.owner, share });
                remaining = remaining - share;
            }
        }
        i = i + 1;
    }
    assert(holders@.subrange(0, holders@.len() as int) =~= holders@);
    config.last_distribution = now;
    Ok(Distribution { payouts: paid, event: DistributionEvent { timestamp: now, amount: reward_balance } })
}

} // verus!
