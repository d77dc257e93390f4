//! Laws of the accounting engine, proved once and for all over the spec
//! functions that the operations' contracts are stated with.

use vstd::arithmetic::div_mod::lemma_div_is_ordered;
use vstd::arithmetic::div_mod::lemma_div_multiples_vanish;
use vstd::arithmetic::div_mod::lemma_div_pos_is_pos;
use vstd::arithmetic::div_mod::lemma_fundamental_div_mod;
use vstd::arithmetic::div_mod::lemma_fundamental_div_mod_converse_div;
use vstd::arithmetic::div_mod::lemma_mod_bound;
use vstd::arithmetic::mul::lemma_mul_is_distributive_add;
use vstd::arithmetic::mul::lemma_mul_nonnegative;
use vstd::prelude::*;

use crate::math::lemma_flash_fee_bounded;
use crate::math::spec_flash_fee;
use crate::math::spec_shares_for_deposit;
use crate::math::spec_tokens_for_withdraw;
use crate::ops::spec_claim;
use crate::ops::spec_deposit;
use crate::ops::spec_withdraw;
use crate::rewards::spec_acc_increment;
use crate::rewards::spec_catch_up_overflows;
use crate::rewards::spec_caught_up;
use crate::rewards::spec_catch_up_skips;
use crate::rewards::spec_elapsed;
use crate::state::AccountId;
use crate::state::PositionView;
use crate::state::VaultView;
use crate::state::REWARD_PRECISION;

verus! {

/// A granted share count is nonnegative and never worth more reserve than
/// the deposit contributed: `s * balance <= amount * total`.  The
/// equivalence `total == 0 <==> balance == 0` is the vault's steady-state
/// invariant; a deposit into a reserve-positive, shares-zero vault is the
/// one state in which a depositor can capture more than contributed.
pub proof fn lemma_shares_granted_bounded(amount: int, balance: int, total: int)
    requires
        0 < amount,
        0 <= balance,
        0 <= total,
        total == 0 <==> balance == 0,
    ensures
        ({
            let s = spec_shares_for_deposit(amount, balance, total);
            0 <= s && s * balance <= amount * total
        }),
{
    let s = spec_shares_for_deposit(amount, balance, total);
    if total == 0 {
        assert(s * balance == 0) by (nonlinear_arith)
            requires
                balance == 0,
        ;
        assert(amount * total == 0) by (nonlinear_arith)
            requires
                total == 0,
        ;
    } else {
        lemma_mul_nonnegative(amount, total);
        lemma_div_pos_is_pos(amount * total, balance);
        lemma_fundamental_div_mod(amount * total, balance);
        lemma_mod_bound(amount * total, balance);
        assert(s * balance == balance * s) by (nonlinear_arith);
    }
}

/// No share-price inflation: the depositor's fraction of the post-deposit
/// pool never exceeds the contributed fraction of the post-deposit reserve,
/// `s / (total + s) <= amount / (balance + amount)`, stated multiplied out.
pub proof fn lemma_no_share_price_inflation(amount: int, balance: int, total: int)
    requires
        0 < amount,
        0 <= balance,
        0 <= total,
        total == 0 <==> balance == 0,
    ensures
        ({
            let s = spec_shares_for_deposit(amount, balance, total);
            s * (balance + amount) <= amount * (total + s)
        }),
{
    let s = spec_shares_for_deposit(amount, balance, total);
    lemma_shares_granted_bounded(amount, balance, total);
    lemma_mul_is_distributive_add(s, balance, amount);
    lemma_mul_is_distributive_add(amount, total, s);
    assert(s * amount == amount * s) by (nonlinear_arith);
}

/// Round trip: depositing `amount` and immediately withdrawing every share
/// it minted pays back at most `amount`; rounding down on both legs can
/// leave dust in the reserve, never pay out more than went in.
pub proof fn lemma_deposit_withdraw_round_trip(amount: int, balance: int, total: int)
    requires
        0 < amount,
        0 <= balance,
        0 <= total,
        total == 0 <==> balance == 0,
        spec_shares_for_deposit(amount, balance, total) > 0,
    ensures
        ({
            let s = spec_shares_for_deposit(amount, balance, total);
            spec_tokens_for_withdraw(s, balance + amount, total + s) <= amount
        }),
{
    let s = spec_shares_for_deposit(amount, balance, total);
    lemma_no_share_price_inflation(amount, balance, total);
    lemma_div_is_ordered(s * (balance + amount), amount * (total + s), total + s);
    lemma_div_multiples_vanish(amount, total + s);
    assert(amount * (total + s) == (total + s) * amount) by (nonlinear_arith);
}

/// Idempotence of the reward catch-up: once caught up to `now`, catching up
/// to `now` again changes nothing, and cannot overflow.
pub proof fn lemma_catch_up_idempotent(v: VaultView, now: int)
    ensures
        spec_caught_up(spec_caught_up(v, now), now) == spec_caught_up(v, now),
        !spec_catch_up_overflows(spec_caught_up(v, now), now),
{
}

/// Reward conservation for a sole depositor: holding every outstanding
/// share across an interval, the claimable amount in asset units is
/// `reward_rate * elapsed`, up to at most one unit lost to fixed-point
/// rounding (for share counts up to the fixed-point scale).
pub proof fn lemma_reward_conservation_single_staker(
    reward_rate: int,
    elapsed: int,
    shares: int,
    acc0: int,
)
    requires
        0 < shares <= REWARD_PRECISION,
        0 <= reward_rate,
        0 <= elapsed,
        0 <= acc0,
    ensures
        ({
            let inc = spec_acc_increment(reward_rate, elapsed, shares);
            let pending_scaled = shares * (acc0 + inc) - shares * acc0;
            let payout = pending_scaled / (REWARD_PRECISION as int);
            reward_rate * elapsed - 1 <= payout <= reward_rate * elapsed
        }),
{
    let p = REWARD_PRECISION as int;
    let e = reward_rate * elapsed;
    let inc = spec_acc_increment(reward_rate, elapsed, shares);
    lemma_mul_is_distributive_add(shares, acc0, inc);
    assert(shares * (acc0 + inc) - shares * acc0 == shares * inc);
    lemma_mul_nonnegative(reward_rate, elapsed);
    lemma_mul_nonnegative(e, p);
    lemma_div_pos_is_pos(e * p, shares);
    lemma_fundamental_div_mod(e * p, shares);
    lemma_mod_bound(e * p, shares);
    assert(shares * inc <= e * p);
    // Upper bound: floor(shares * inc / p) <= floor(e * p / p) == e.
    lemma_div_is_ordered(shares * inc, e * p, p);
    lemma_div_multiples_vanish(e, p);
    assert(e * p == p * e) by (nonlinear_arith);
    // Lower bound: the division by `shares` discards less than `shares <= p`
    // scaled units, so at most one asset unit.
    assert(shares * inc >= e * p - shares + 1);
    assert((e - 1) * p + 1 <= shares * inc) by (nonlinear_arith)
        requires
            shares * inc >= e * p - shares + 1,
            shares <= p,
    ;
    assert(((e - 1) * p + 1) / p == e - 1) by {
        lemma_fundamental_div_mod_converse_div((e - 1) * p + 1, p, e - 1, 1);
    };
    lemma_div_is_ordered((e - 1) * p + 1, shares * inc, p);
}

/// The flash-loan repayment boundary: with `fee = floor(amount * fee_bps /
/// 10000)`, repaying exactly `amount + fee` after borrowing `amount`
/// restores precisely the required balance, and repaying one unit less
/// falls short of it, so the settlement check accepts the former and
/// rejects the latter.
pub proof fn lemma_flash_loan_repayment_boundary(amount: int, fee_bps: int, balance_before: int)
    requires
        0 < amount <= balance_before,
        0 <= fee_bps <= 10000,
    ensures
        ({
            let fee = spec_flash_fee(amount, fee_bps);
            &&& 0 <= fee <= amount
            &&& balance_before - amount + (amount + fee) == balance_before + fee
            &&& balance_before - amount + (amount + fee - 1) < balance_before + fee
        }),
{
    lemma_flash_fee_bounded(amount, fee_bps);
}

/// The reward catch-up never decreases the accumulator.
pub proof fn lemma_catch_up_monotone(v: VaultView, now: int)
    requires
        0 <= v.reward_rate,
        0 <= v.total_shares,
    ensures
        spec_caught_up(v, now).acc_reward_per_share >= v.acc_reward_per_share,
        spec_caught_up(v, now).total_shares == v.total_shares,
        spec_caught_up(v, now).reward_rate == v.reward_rate,
{
    if !spec_catch_up_skips(v, now) {
        let e = spec_elapsed(v.last_update_ts, now);
        lemma_mul_nonnegative(v.reward_rate, e);
        lemma_mul_nonnegative(v.reward_rate * e, REWARD_PRECISION as int);
        lemma_div_pos_is_pos(v.reward_rate * e * (REWARD_PRECISION as int), v.total_shares);
    }
}

/// Share operations never touch the vault's identities or flash-loan
/// configuration, never decrease the reward accumulator, and preserve
/// well-formedness: `cv` ranging over the vault of any successful deposit,
/// withdrawal or claim effect.
pub open spec fn preserves_vault_config(v: VaultView, cv: VaultView) -> bool {
    &&& cv.authority == v.authority
    &&& cv.token_mint == v.token_mint
    &&& cv.reward_mint == v.reward_mint
    &&& cv.reward_vault == v.reward_vault
    &&& cv.reward_rate == v.reward_rate
    &&& cv.flash_fee_bps == v.flash_fee_bps
    &&& cv.fee_treasury == v.fee_treasury
    &&& cv.callback_allowlist_enabled == v.callback_allowlist_enabled
    &&& cv.callback_allowlist == v.callback_allowlist
    &&& cv.acc_reward_per_share >= v.acc_reward_per_share
    &&& (v.wf() ==> cv.wf())
}

/// A successful deposit preserves the configuration and the accumulator's
/// monotonicity.
pub proof fn lemma_deposit_preserves_config(
    v: VaultView,
    p: PositionView,
    user: AccountId,
    vault_id: AccountId,
    vault_balance: int,
    amount: int,
    now: int,
)
    requires
        0 <= v.reward_rate,
        0 <= v.total_shares,
    ensures
        spec_deposit(v, p, user, vault_id, vault_balance, amount, now) matches Ok(eff)
            ==> preserves_vault_config(v, eff.vault),
{
    lemma_catch_up_monotone(v, now);
}

/// A successful withdrawal preserves the configuration and the
/// accumulator's monotonicity.
pub proof fn lemma_withdraw_preserves_config(
    v: VaultView,
    p: PositionView,
    user: AccountId,
    vault_id: AccountId,
    vault_balance: int,
    shares_req: int,
    now: int,
)
    requires
        0 <= v.reward_rate,
        0 <= v.total_shares,
    ensures
        spec_withdraw(v, p, user, vault_id, vault_balance, shares_req, now) matches Ok(eff)
            ==> preserves_vault_config(v, eff.vault),
{
    lemma_catch_up_monotone(v, now);
}

/// A successful claim preserves the configuration and the accumulator's
/// monotonicity.
pub proof fn lemma_claim_preserves_config(
    v: VaultView,
    p: PositionView,
    user: AccountId,
    vault_id: AccountId,
    reward_vault_balance: int,
    now: int,
)
    requires
        0 <= v.reward_rate,
        0 <= v.total_shares,
    ensures
        spec_claim(v, p, user, vault_id, reward_vault_balance, now) matches Ok(eff)
            ==> preserves_vault_config(v, eff.vault),
{
    lemma_catch_up_monotone(v, now);
}

/// The position a depositor starts from: no shares, nothing settled.
pub open spec fn fresh_position(user: AccountId, vault_id: AccountId) -> PositionView {
    PositionView { user, vault: vault_id, shares: 0, reward_debt: 0 }
}

/// The outcome of replaying a sequence of deposits: the vault, the reserve
/// (each successful deposit's transfer grows it by the amount), and the sum
/// of the granted shares.
pub ghost struct DepositRun {
    pub vault: VaultView,
    pub balance: int,
    pub granted_total: int,
}

/// Replays `amounts` as deposits by fresh depositors with no time elapsed
/// (every catch-up happens at the vault's own timestamp).  `None` when any
/// deposit in the sequence is rejected.
pub open spec fn spec_deposit_run(
    v: VaultView,
    balance: int,
    user: AccountId,
    vault_id: AccountId,
    amounts: Seq<int>,
) -> Option<DepositRun>
    decreases amounts.len(),
{
    if amounts.len() == 0 {
        Some(DepositRun { vault: v, balance, granted_total: 0 })
    } else {
        match spec_deposit_run(v, balance, user, vault_id, amounts.drop_last()) {
            Some(run) => match spec_deposit(
                run.vault,
                fresh_position(user, vault_id),
                user,
                vault_id,
                run.balance,
                amounts.last(),
                run.vault.last_update_ts,
            ) {
                Ok(eff) => Some(
                    DepositRun {
                        vault: eff.vault,
                        balance: run.balance + amounts.last(),
                        granted_total: run.granted_total + eff.shares_minted,
                    },
                ),
                Err(_) => None,
            },
            None => None,
        }
    }
}

/// Share conservation: across any sequence of deposits with no time
/// elapsed, `total_shares` grows by exactly the sum of the individually
/// granted shares (so from an empty vault it equals that sum).
pub proof fn lemma_deposits_sum_to_total_shares(
    v: VaultView,
    balance: int,
    user: AccountId,
    vault_id: AccountId,
    amounts: Seq<int>,
)
    ensures
        spec_deposit_run(v, balance, user, vault_id, amounts) matches Some(run) ==> run
            .vault
            .total_shares == v.total_shares + run.granted_total,
    decreases amounts.len(),
{
    if amounts.len() > 0 {
        lemma_deposits_sum_to_total_shares(v, balance, user, vault_id, amounts.drop_last());
    }
}

} // verus!
