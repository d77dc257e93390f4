//! Deposit, withdraw and reward-accounting scenarios driven end to end
//! through the public API, with the host's part (transfers, clock, storage
//! reclaim) played by the test.

use vault_core::math::calculate_shares_for_deposit;
use vault_core::math::calculate_tokens_for_withdraw;
use vault_core::ops::claim_rewards;
use vault_core::ops::deposit;
use vault_core::ops::fund_rewards;
use vault_core::ops::withdraw;
use vault_core::rewards::update_rewards;
use vault_core::state::initialize_vault;
use vault_core::state::UserPosition;
use vault_core::state::VaultError;

const VAULT_ID: u64 = 77;

fn fresh_position() -> UserPosition {
    UserPosition { user: 0, vault: 0, shares: 0, reward_debt: 0 }
}

#[test]
fn initialize_vault_starts_empty_and_unconfigured() {
    let v = initialize_vault(1, 2, 3, 4, 999);
    assert_eq!(v.authority, 1);
    assert_eq!(v.token_mint, 2);
    assert_eq!(v.reward_mint, 3);
    assert_eq!(v.reward_vault, 4);
    assert_eq!(v.total_shares, 0);
    assert_eq!(v.reward_rate, 0);
    assert_eq!(v.acc_reward_per_share, 0);
    assert_eq!(v.last_update_ts, 999);
    assert_eq!(v.flash_fee_bps, 0);
    assert_eq!(v.fee_treasury, 0);
    assert!(!v.callback_allowlist_enabled);
    assert!(v.callback_allowlist.is_empty());
}

#[test]
fn first_deposit_mints_one_to_one() {
    let mut vault = initialize_vault(1, 2, 3, 4, 0);
    let mut pos = fresh_position();
    let r = deposit(&mut vault, VAULT_ID, &mut pos, 9, 0, 500, 0);
    assert_eq!(r, Ok(500));
    assert_eq!(vault.total_shares, 500);
    assert_eq!(pos.user, 9);
    assert_eq!(pos.vault, VAULT_ID);
    assert_eq!(pos.shares, 500);
    assert_eq!(pos.reward_debt, 0);
}

#[test]
fn deposits_sum_to_total_shares_with_no_time_elapsed() {
    let mut vault = initialize_vault(1, 2, 3, 4, 0);
    let mut reserve: u64 = 0;
    let mut granted: Vec<u64> = Vec::new();
    let amounts: [u64; 4] = [500, 250, 125, 1000];
    for (i, &amount) in amounts.iter().enumerate() {
        let mut pos = fresh_position();
        let s = deposit(&mut vault, VAULT_ID, &mut pos, 100 + i as u64, reserve, amount, 0)
            .expect("deposit should succeed");
        reserve += amount; // host transfers the amount into custody
        granted.push(s);
    }
    let sum: u64 = granted.iter().sum();
    assert_eq!(vault.total_shares, sum);
    // no share-price inflation: s * reserve_after <= amount * total_after,
    // checked for the last depositor
    let s = *granted.last().unwrap() as u128;
    assert!(s * reserve as u128 <= 1000u128 * vault.total_shares as u128);
}

#[test]
fn dust_deposit_that_would_mint_zero_shares_is_rejected() {
    let mut vault = initialize_vault(1, 2, 3, 4, 0);
    let mut pos = fresh_position();
    deposit(&mut vault, VAULT_ID, &mut pos, 9, 0, 1_000, 0).unwrap();
    // reserve ballooned to 2_000_000 (e.g. by donation): 1999 * 1000 / 2000000 == 0
    let mut pos2 = fresh_position();
    let r = deposit(&mut vault, VAULT_ID, &mut pos2, 10, 2_000_000, 1_999, 0);
    assert_eq!(r, Err(VaultError::InvalidAmount));
    assert_eq!(vault.total_shares, 1_000);
    assert_eq!(pos2.shares, 0);
}

#[test]
fn zero_amount_deposit_is_rejected() {
    let mut vault = initialize_vault(1, 2, 3, 4, 0);
    let mut pos = fresh_position();
    assert_eq!(deposit(&mut vault, VAULT_ID, &mut pos, 9, 0, 0, 0), Err(VaultError::InvalidAmount));
}

#[test]
fn deposit_on_foreign_position_is_rejected() {
    let mut vault = initialize_vault(1, 2, 3, 4, 0);
    let mut pos = fresh_position();
    deposit(&mut vault, VAULT_ID, &mut pos, 9, 0, 100, 0).unwrap();
    // another depositor handing in depositor 9's position
    let r = deposit(&mut vault, VAULT_ID, &mut pos, 10, 100, 100, 0);
    assert_eq!(r, Err(VaultError::InvalidUserPosition));
    // right depositor, wrong vault binding
    let r2 = deposit(&mut vault, 78, &mut pos, 9, 100, 100, 0);
    assert_eq!(r2, Err(VaultError::InvalidVault));
}

#[test]
fn round_trip_returns_at_most_the_deposit() {
    // pre-existing pool: 3 shares over a reserve of 10
    let mut vault = initialize_vault(1, 2, 3, 4, 0);
    let mut pos0 = fresh_position();
    deposit(&mut vault, VAULT_ID, &mut pos0, 8, 0, 3, 0).unwrap();
    let reserve: u64 = 10; // grew by donation after the bootstrap deposit
    let mut pos = fresh_position();
    let amount: u64 = 5;
    let s = deposit(&mut vault, VAULT_ID, &mut pos, 9, reserve, amount, 0).unwrap();
    assert_eq!(s, 1); // floor(5 * 3 / 10)
    let (tokens, closed) = withdraw(&mut vault, VAULT_ID, &mut pos, 9, reserve + amount, s, 0)
        .expect("withdraw should succeed");
    assert!(tokens <= amount);
    assert_eq!(tokens, 3); // floor(1 * 15 / 4): dust stays behind
    assert!(closed);
}

#[test]
fn withdraw_of_more_shares_than_held_is_rejected() {
    let mut vault = initialize_vault(1, 2, 3, 4, 0);
    let mut pos = fresh_position();
    deposit(&mut vault, VAULT_ID, &mut pos, 9, 0, 100, 0).unwrap();
    let r = withdraw(&mut vault, VAULT_ID, &mut pos, 9, 100, 101, 0);
    assert_eq!(r, Err(VaultError::InsufficientShares));
    assert_eq!(pos.shares, 100);
    assert_eq!(vault.total_shares, 100);
}

#[test]
fn withdraw_validates_position_binding() {
    let mut vault = initialize_vault(1, 2, 3, 4, 0);
    let mut pos = fresh_position();
    deposit(&mut vault, VAULT_ID, &mut pos, 9, 0, 100, 0).unwrap();
    assert_eq!(withdraw(&mut vault, 78, &mut pos, 9, 100, 50, 0), Err(VaultError::InvalidVault));
    assert_eq!(withdraw(&mut vault, VAULT_ID, &mut pos, 10, 100, 50, 0), Err(VaultError::InvalidVault));
    assert_eq!(withdraw(&mut vault, VAULT_ID, &mut pos, 9, 100, 0, 0), Err(VaultError::InvalidAmount));
}

#[test]
fn share_math_rejects_division_by_zero_and_overflow() {
    assert_eq!(calculate_shares_for_deposit(5, 0, 10), Err(VaultError::DivisionByZero));
    assert_eq!(calculate_shares_for_deposit(u64::MAX, 1, u64::MAX), Err(VaultError::MathOverflow));
    assert_eq!(calculate_shares_for_deposit(7, 123, 0), Ok(7));
    assert_eq!(calculate_tokens_for_withdraw(1, 100, 0), Err(VaultError::DivisionByZero));
    assert_eq!(calculate_tokens_for_withdraw(1, 0, 100), Err(VaultError::InvalidAmount));
    assert_eq!(calculate_tokens_for_withdraw(u64::MAX, u64::MAX, 1), Err(VaultError::MathOverflow));
    assert_eq!(calculate_tokens_for_withdraw(2, 15, 4), Ok(7));
}

#[test]
fn catch_up_is_idempotent_at_the_same_timestamp() {
    let mut vault = initialize_vault(1, 2, 3, 4, 0);
    let mut pos = fresh_position();
    deposit(&mut vault, VAULT_ID, &mut pos, 9, 0, 100, 0).unwrap();
    fund_rewards(&mut vault, 1_000_000, 1000).unwrap();
    update_rewards(&mut vault, 50).unwrap();
    let acc_once = vault.acc_reward_per_share;
    let ts_once = vault.last_update_ts;
    let shares_once = vault.total_shares;
    update_rewards(&mut vault, 50).unwrap();
    assert_eq!(vault.acc_reward_per_share, acc_once);
    assert_eq!(vault.last_update_ts, ts_once);
    assert_eq!(vault.total_shares, shares_once);
}

#[test]
fn catch_up_with_no_shares_only_advances_the_clock() {
    let mut vault = initialize_vault(1, 2, 3, 4, 0);
    vault.reward_rate = 1000;
    update_rewards(&mut vault, 100).unwrap();
    assert_eq!(vault.acc_reward_per_share, 0);
    assert_eq!(vault.last_update_ts, 100);
}

#[test]
fn single_staker_claims_rate_times_elapsed() {
    // reward_rate 1000, one depositor with 100 shares, 100 seconds elapse:
    // the accumulator increments by 1000*100*SCALE/100 and the only staker
    // claims exactly 100000 units.
    let mut vault = initialize_vault(1, 2, 3, 4, 0);
    let mut pos = fresh_position();
    deposit(&mut vault, VAULT_ID, &mut pos, 9, 0, 100, 0).unwrap();
    fund_rewards(&mut vault, 1_000_000, 1000).unwrap();
    let (paid, closed) = claim_rewards(&mut vault, VAULT_ID, &mut pos, 9, 1_000_000, 100).unwrap();
    assert_eq!(paid, 100_000);
    assert!(!closed);
    // everything settled: an immediate second claim pays nothing
    let (paid2, closed2) = claim_rewards(&mut vault, VAULT_ID, &mut pos, 9, 1_000_000, 100).unwrap();
    assert_eq!(paid2, 0);
    assert!(!closed2);
}

#[test]
fn single_staker_conservation_loses_at_most_one_unit() {
    // 3 shares, rate 1, 1 second: floor(SCALE/3)*3/SCALE == 0, one unit
    // below rate*elapsed == 1.
    let mut vault = initialize_vault(1, 2, 3, 4, 0);
    let mut pos = fresh_position();
    deposit(&mut vault, VAULT_ID, &mut pos, 9, 0, 3, 0).unwrap();
    fund_rewards(&mut vault, 1_000, 1).unwrap();
    let (paid, _) = claim_rewards(&mut vault, VAULT_ID, &mut pos, 9, 1_000, 1).unwrap();
    assert_eq!(paid, 0);
}

#[test]
fn two_stakers_split_rewards_by_share_weight() {
    // 100 and 300 shares (400 total), rate 400, 10 seconds: the accumulator
    // increments by 400*10*SCALE/400 == 10*SCALE, so the depositors are owed
    // 1000 and 3000.
    let mut vault = initialize_vault(1, 2, 3, 4, 0);
    let mut pos_a = fresh_position();
    let mut pos_b = fresh_position();
    deposit(&mut vault, VAULT_ID, &mut pos_a, 9, 0, 100, 0).unwrap();
    deposit(&mut vault, VAULT_ID, &mut pos_b, 10, 100, 300, 0).unwrap();
    fund_rewards(&mut vault, 10_000, 400).unwrap();
    let (paid_a, _) = claim_rewards(&mut vault, VAULT_ID, &mut pos_a, 9, 10_000, 10).unwrap();
    assert_eq!(paid_a, 1_000);
    let (paid_b, _) = claim_rewards(&mut vault, VAULT_ID, &mut pos_b, 10, 10_000 - 1_000, 10).unwrap();
    assert_eq!(paid_b, 3_000);
}

#[test]
fn withdraw_to_zero_parks_pending_rewards_and_claim_then_closes() {
    // withdraw-to-zero with pending rewards keeps the position open; the
    // subsequent claim pays exactly the pending amount and reclaims it.
    let mut vault = initialize_vault(1, 2, 3, 4, 0);
    let mut pos = fresh_position();
    deposit(&mut vault, VAULT_ID, &mut pos, 9, 0, 100, 0).unwrap();
    fund_rewards(&mut vault, 1_000_000, 1000).unwrap();
    // 100 seconds later the staker leaves entirely without claiming
    let (tokens, closed) = withdraw(&mut vault, VAULT_ID, &mut pos, 9, 100, 100, 100).unwrap();
    assert_eq!(tokens, 100);
    assert!(!closed, "pending rewards must keep the position open");
    assert_eq!(pos.shares, 0);
    assert!(pos.reward_debt > 0, "pending rewards parked in the debt field");
    // the claim pays what was parked and releases the position
    let (paid, closed2) = claim_rewards(&mut vault, VAULT_ID, &mut pos, 9, 1_000_000, 200).unwrap();
    assert_eq!(paid, 100_000);
    assert!(closed2);
    assert_eq!(pos.reward_debt, 0);
    assert_eq!(pos.shares, 0);
}

#[test]
fn withdraw_to_zero_with_nothing_pending_closes_at_once() {
    let mut vault = initialize_vault(1, 2, 3, 4, 0);
    let mut pos = fresh_position();
    deposit(&mut vault, VAULT_ID, &mut pos, 9, 0, 100, 0).unwrap();
    let (tokens, closed) = withdraw(&mut vault, VAULT_ID, &mut pos, 9, 100, 100, 0).unwrap();
    assert_eq!(tokens, 100);
    assert!(closed);
}

#[test]
fn claim_reports_an_underfunded_reward_pool() {
    let mut vault = initialize_vault(1, 2, 3, 4, 0);
    let mut pos = fresh_position();
    deposit(&mut vault, VAULT_ID, &mut pos, 9, 0, 100, 0).unwrap();
    fund_rewards(&mut vault, 10, 1000).unwrap();
    // 100000 owed but the reward custody only holds 10
    let r = claim_rewards(&mut vault, VAULT_ID, &mut pos, 9, 10, 100);
    assert_eq!(r, Err(VaultError::InsufficientRewardBalance));
    // nothing changed, not even the accumulator
    assert_eq!(vault.acc_reward_per_share, 0);
    assert_eq!(vault.last_update_ts, 0);
    assert_eq!(pos.reward_debt, 0);
}

#[test]
fn fund_rewards_rejects_zero_and_keeps_rate_on_zero_rate() {
    let mut vault = initialize_vault(1, 2, 3, 4, 0);
    assert_eq!(fund_rewards(&mut vault, 0, 5), Err(VaultError::InvalidAmount));
    assert_eq!(vault.reward_rate, 0);
    fund_rewards(&mut vault, 10, 5).unwrap();
    assert_eq!(vault.reward_rate, 5);
    fund_rewards(&mut vault, 10, 0).unwrap();
    assert_eq!(vault.reward_rate, 5, "a zero rate leaves the old rate in place");
}

#[test]
fn a_clock_reading_behind_the_stored_timestamp_emits_nothing() {
    let mut vault = initialize_vault(1, 2, 3, 4, 100);
    let mut pos = fresh_position();
    deposit(&mut vault, VAULT_ID, &mut pos, 9, 0, 100, 100).unwrap();
    vault.reward_rate = 1000;
    update_rewards(&mut vault, 50).unwrap();
    assert_eq!(vault.acc_reward_per_share, 0);
    assert_eq!(vault.last_update_ts, 50);
}

#[test]
fn deposit_reports_division_by_zero_against_an_emptied_reserve() {
    // shares outstanding but the observed reserve is zero
    let mut vault = initialize_vault(1, 2, 3, 4, 0);
    vault.total_shares = 5;
    let mut pos = fresh_position();
    let r = deposit(&mut vault, VAULT_ID, &mut pos, 9, 0, 10, 0);
    assert_eq!(r, Err(VaultError::DivisionByZero));
}

#[test]
fn deposit_reports_overflow_of_total_shares() {
    let mut vault = initialize_vault(1, 2, 3, 4, 0);
    vault.total_shares = u64::MAX;
    let mut pos = fresh_position();
    let r = deposit(&mut vault, VAULT_ID, &mut pos, 9, 1, 1, 0);
    assert_eq!(r, Err(VaultError::MathOverflow));
    assert_eq!(vault.total_shares, u64::MAX, "a failed deposit changes nothing");
}

#[test]
fn catch_up_reports_overflow_and_changes_nothing() {
    let mut vault = initialize_vault(1, 2, 3, 4, 0);
    vault.total_shares = 1;
    vault.reward_rate = u64::MAX;
    let r = update_rewards(&mut vault, i64::MAX);
    assert_eq!(r, Err(VaultError::MathOverflow));
    assert_eq!(vault.acc_reward_per_share, 0);
    assert_eq!(vault.last_update_ts, 0);
}

#[test]
fn dust_withdrawal_paying_zero_tokens_is_rejected() {
    let mut vault = initialize_vault(1, 2, 3, 4, 0);
    let mut pos = fresh_position();
    deposit(&mut vault, VAULT_ID, &mut pos, 9, 0, 1_000, 0).unwrap();
    // the observed reserve has shrunk to 100: 1 share is worth 0.1 tokens
    let r = withdraw(&mut vault, VAULT_ID, &mut pos, 9, 100, 1, 0);
    assert_eq!(r, Err(VaultError::InvalidAmount));
    assert_eq!(pos.shares, 1_000);
}

#[test]
fn claim_clamps_an_oversized_parked_reward_to_u64() {
    let mut vault = initialize_vault(1, 2, 3, 4, 0);
    let mut pos = UserPosition { user: 9, vault: VAULT_ID, shares: 0, reward_debt: u128::MAX };
    let (paid, closed) =
        claim_rewards(&mut vault, VAULT_ID, &mut pos, 9, u64::MAX, 0).unwrap();
    assert_eq!(paid, u64::MAX);
    assert!(closed);
    assert_eq!(pos.reward_debt, 0);
}

#[test]
fn deposit_after_withdraw_to_zero_resets_the_reward_baseline() {
    // a fresh deposit settles nothing from before: the baseline is reset to
    // shares * acc_reward_per_share at deposit time
    let mut vault = initialize_vault(1, 2, 3, 4, 0);
    let mut pos = fresh_position();
    deposit(&mut vault, VAULT_ID, &mut pos, 9, 0, 100, 0).unwrap();
    fund_rewards(&mut vault, 1_000_000, 1000).unwrap();
    update_rewards(&mut vault, 100).unwrap();
    let mut pos2 = fresh_position();
    deposit(&mut vault, VAULT_ID, &mut pos2, 10, 100, 100, 100).unwrap();
    assert_eq!(pos2.reward_debt, 100u128 * vault.acc_reward_per_share);
    // so an immediate claim pays the newcomer nothing
    let (paid, _) = claim_rewards(&mut vault, VAULT_ID, &mut pos2, 10, 1_000_000, 100).unwrap();
    assert_eq!(paid, 0);
}
