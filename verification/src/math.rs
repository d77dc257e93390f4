//! Share-price and fee math: pure functions with no side effects.
//!
//! Both conversions round down.  Rounding a deposit down means a depositor
//! never receives more claim than the contribution justifies (no share-price
//! inflation); rounding a withdrawal down means the vault never owes more
//! than it holds.  Dust results of zero are rejected as errors.

use vstd::arithmetic::div_mod::lemma_div_is_ordered;
use vstd::arithmetic::div_mod::lemma_div_multiples_vanish;
use vstd::arithmetic::mul::lemma_mul_inequality;
use vstd::arithmetic::mul::lemma_mul_upper_bound;
use vstd::prelude::*;

use crate::state::VaultError;

verus! {

/// Shares granted for depositing `amount` into a reserve of `balance` with
/// `total_shares` outstanding: `amount` itself when no shares exist yet
/// (bootstrapping the share price at 1), otherwise
/// `floor(amount * total_shares / balance)`.
/// Meaningful only when `total_shares == 0 || balance > 0`.
pub open spec fn spec_shares_for_deposit(amount: int, balance: int, total_shares: int) -> int {
    if total_shares == 0 {
        amount
    } else {
        (amount * total_shares) / balance
    }
}

/// Tokens paid for burning `shares` against a reserve of `balance` with
/// `total_shares` outstanding: `floor(shares * balance / total_shares)`.
/// Meaningful only when `total_shares > 0`.
pub open spec fn spec_tokens_for_withdraw(shares: int, balance: int, total_shares: int) -> int {
    (shares * balance) / total_shares
}

/// Flash-loan fee on a principal of `amount` at `fee_bps` basis points:
/// `floor(amount * fee_bps / 10000)`.
pub open spec fn spec_flash_fee(amount: int, fee_bps: int) -> int {
    (amount * fee_bps) / 10000
}

/// How many shares a deposit of `deposit_amount` mints.  With no shares
/// outstanding the deposit bootstraps the share price at 1 and mints 1:1;
/// otherwise the quotient is taken in double-width arithmetic and rejected
/// if it cannot be represented.
pub fn calculate_shares_for_deposit(
    deposit_amount: u64,
    vault_balance: u64,
    total_shares: u64,
) -> (r: Result<u64, VaultError>)
    ensures
        total_shares == 0 ==> r == Ok::<u64, VaultError>(deposit_amount),
        total_shares > 0 && vault_balance == 0 ==> r == Err::<u64, VaultError>(
            VaultError::DivisionByZero,
        ),
        total_shares > 0 && vault_balance > 0 ==> ({
            let s = spec_shares_for_deposit(
                deposit_amount as int,
                vault_balance as int,
                total_shares as int,
            );
            if s > u64::MAX {
                r == Err::<u64, VaultError>(VaultError::MathOverflow)
            } else {
                r == Ok::<u64, VaultError>(s as u64)
            }
        }),
{
    if total_shares == 0 {
        return Ok(deposit_amount);
    }
    if vault_balance == 0 {
        return Err(VaultError::DivisionByZero);
    }
    proof {
        lemma_mul_upper_bound(
            deposit_amount as int,
            u64::MAX as int,
            total_shares as int,
            u64::MAX as int,
        );
    }
    let numerator: u128 = (deposit_amount as u128) * (total_shares as u128);
    let shares: u128 = numerator / (vault_balance as u128);
    if shares > u64::MAX as u128 {
        Err(VaultError::MathOverflow)
    } else {
        Ok(shares as u64)
    }
}

/// How many tokens burning `shares` pays out.  Requires shares to be
/// outstanding; rejects a quotient of zero (a dust withdrawal) and one that
/// cannot be represented.
pub fn calculate_tokens_for_withdraw(
    shares: u64,
    vault_balance: u64,
    total_shares: u64,
) -> (r: Result<u64, VaultError>)
    ensures
        total_shares == 0 ==> r == Err::<u64, VaultError>(VaultError::DivisionByZero),
        total_shares > 0 ==> ({
            let t = spec_tokens_for_withdraw(
                shares as int,
                vault_balance as int,
                total_shares as int,
            );
            if t > u64::MAX {
                r == Err::<u64, VaultError>(VaultError::MathOverflow)
            } else if t == 0 {
                r == Err::<u64, VaultError>(VaultError::InvalidAmount)
            } else {
                r == Ok::<u64, VaultError>(t as u64)
            }
        }),
{
    if total_shares == 0 {
        return Err(VaultError::DivisionByZero);
    }
    proof {
        lemma_mul_upper_bound(shares as int, u64::MAX as int, vault_balance as int, u64::MAX as int);
    }
    let numerator: u128 = (shares as u128) * (vault_balance as u128);
    let tokens: u128 = numerator / (total_shares as u128);
    if tokens > u64::MAX as u128 {
        Err(VaultError::MathOverflow)
    } else if tokens == 0 {
        Err(VaultError::InvalidAmount)
    } else {
        Ok(tokens as u64)
    }
}

/// The fee never exceeds the principal while the rate stays within 100%.
pub proof fn lemma_flash_fee_bounded(amount: int, fee_bps: int)
    requires
        0 <= amount,
        0 <= fee_bps <= 10000,
    ensures
        0 <= spec_flash_fee(amount, fee_bps) <= amount,
{
    lemma_mul_inequality(fee_bps, 10000, amount);
    assert(amount * fee_bps == fee_bps * amount) by (nonlinear_arith);
    assert(amount * 10000 == 10000 * amount) by (nonlinear_arith);
    lemma_div_is_ordered(amount * fee_bps, amount * 10000, 10000);
    lemma_div_multiples_vanish(amount, 10000);
    assert(amount * fee_bps >= 0) by (nonlinear_arith)
        requires
            0 <= amount,
            0 <= fee_bps,
    ;
    vstd::arithmetic::div_mod::lemma_div_pos_is_pos(amount * fee_bps, 10000);
}

/// The flash-loan fee on `amount` at `fee_bps` basis points.
pub fn calculate_flash_fee(amount: u64, fee_bps: u16) -> (fee: u64)
    requires
        fee_bps <= 10000,
    ensures
        fee == spec_flash_fee(amount as int, fee_bps as int),
        fee <= amount,
{
    proof {
        lemma_mul_upper_bound(amount as int, u64::MAX as int, fee_bps as int, 10000);
        lemma_flash_fee_bounded(amount as int, fee_bps as int);
    }
    let numerator: u128 = (amount as u128) * (fee_bps as u128);
    (numerator / 10000) as u64
}

} // verus!
