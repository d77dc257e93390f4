//! Share accounting operations: deposit, withdraw, reward funding and
//! claiming.
//!
//! Every state-changing operation first catches the reward accumulator up to
//! "now", then performs its own logic, then recomputes the depositor's
//! reward baseline so future accrual is measured from the post-operation
//! share count.  Each function validates and computes everything before
//! writing, so on `Err` the vault and the position are untouched and a host
//! that aborts on `Err` gets all-or-nothing semantics.
//!
//! The host performs the matching asset transfers: on a successful deposit
//! it moves `amount` from the depositor into vault custody, on a successful
//! withdrawal or claim it moves the returned token amount the other way,
//! failing the whole unit of work if a transfer fails.  The custody balances
//! handed in here are the balances observed before those transfers.

use vstd::arithmetic::mul::lemma_mul_inequality;
use vstd::prelude::*;

use crate::math::calculate_shares_for_deposit;
use crate::math::calculate_tokens_for_withdraw;
use crate::math::spec_shares_for_deposit;
use crate::math::spec_tokens_for_withdraw;
use crate::rewards::caught_up_acc;
use crate::rewards::spec_catch_up_overflows;
use crate::rewards::spec_caught_up;
use crate::state::AccountId;
use crate::state::PositionView;
use crate::state::UserPosition;
use crate::state::Vault;
use crate::state::VaultError;
use crate::state::VaultView;
use crate::state::REWARD_PRECISION;

verus! {

/// Everything a successful deposit changes or yields.
pub ghost struct DepositEffect {
    pub vault: VaultView,
    pub position: PositionView,
    pub shares_minted: int,
}

/// The deposit transition.  A position is treated as fresh when it holds no
/// shares (it is then rebound to the depositor); otherwise it must already
/// belong to this depositor and vault.  The depositor's reward baseline is
/// reset to `shares_after * acc_reward_per_share`, so nothing is owed for
/// rewards accrued before joining.
pub open spec fn spec_deposit(
    v: VaultView,
    p: PositionView,
    user: AccountId,
    vault_id: AccountId,
    vault_balance: int,
    amount: int,
    now: int,
) -> Result<DepositEffect, VaultError> {
    if amount == 0 {
        Err(VaultError::InvalidAmount)
    } else if spec_catch_up_overflows(v, now) {
        Err(VaultError::MathOverflow)
    } else {
        let cv = spec_caught_up(v, now);
        if p.shares != 0 && p.user != user {
            Err(VaultError::InvalidUserPosition)
        } else if p.shares != 0 && p.vault != vault_id {
            Err(VaultError::InvalidVault)
        } else if cv.total_shares > 0 && vault_balance == 0 {
            Err(VaultError::DivisionByZero)
        } else {
            let s = spec_shares_for_deposit(amount, vault_balance, cv.total_shares);
            if cv.total_shares > 0 && s > u64::MAX {
                Err(VaultError::MathOverflow)
            } else if s == 0 {
                Err(VaultError::InvalidAmount)
            } else if cv.total_shares + s > u64::MAX {
                Err(VaultError::MathOverflow)
            } else if p.shares + s > u64::MAX {
                Err(VaultError::MathOverflow)
            } else if (p.shares + s) * cv.acc_reward_per_share > u128::MAX {
                Err(VaultError::MathOverflow)
            } else {
                Ok(
                    DepositEffect {
                        vault: VaultView { total_shares: cv.total_shares + s, ..cv },
                        position: PositionView {
                            user,
                            vault: vault_id,
                            shares: p.shares + s,
                            reward_debt: (p.shares + s) * cv.acc_reward_per_share,
                        },
                        shares_minted: s,
                    },
                )
            }
        }
    }
}

/// Deposits `amount` of the asset for `user`, minting shares against the
/// reserve balance observed before the matching transfer.  Returns the
/// shares minted; a deposit that would mint zero shares is rejected as dust.
pub fn deposit(
    vault: &mut Vault,
    vault_id: AccountId,
    position: &mut UserPosition,
    user: AccountId,
    vault_balance: u64,
    amount: u64,
    now: i64,
) -> (r: Result<u64, VaultError>)
    ensures
        ({
            let s = spec_deposit(
                old(vault)@,
                old(position)@,
                user,
                vault_id,
                vault_balance as int,
                amount as int,
                now as int,
            );
            match r {
                Ok(shares) => s is Ok && final(vault)@ == s->Ok_0.vault && final(position)@
                    == s->Ok_0.position && shares as int == s->Ok_0.shares_minted,
                Err(e) => s is Err && e == s->Err_0 && final(vault)@ == old(vault)@
                    && final(position)@ == old(position)@,
            }
        }),
{
    if amount == 0 {
        return Err(VaultError::InvalidAmount);
    }
    let new_acc: u128 = match caught_up_acc(vault, now) {
        Ok(a) => a,
        Err(e) => {
            return Err(e);
        },
    };
    if position.shares != 0 {
        if position.user != user {
            return Err(VaultError::InvalidUserPosition);
        }
        if position.vault != vault_id {
            return Err(VaultError::InvalidVault);
        }
    }
    let shares: u64 = match calculate_shares_for_deposit(amount, vault_balance, vault.total_shares) {
        Ok(s) => s,
        Err(e) => {
            return Err(e);
        },
    };
    if shares == 0 {
        return Err(VaultError::InvalidAmount);
    }
    let new_total: u64 = match vault.total_shares.checked_add(shares) {
        Some(t) => t,
        None => {
            return Err(VaultError::MathOverflow);
        },
    };
    let new_user_shares: u64 = match position.shares.checked_add(shares) {
        Some(s) => s,
        None => {
            return Err(VaultError::MathOverflow);
        },
    };
    let new_debt: u128 = match (new_user_shares as u128).checked_mul(new_acc) {
        Some(d) => d,
        None => {
            return Err(VaultError::MathOverflow);
        },
    };
    vault.acc_reward_per_share = new_acc;
    vault.last_update_ts = now;
    vault.total_shares = new_total;
    position.user = user;
    position.vault = vault_id;
    position.shares = new_user_shares;
    position.reward_debt = new_debt;
    Ok(shares)
}

/// Everything a successful withdrawal changes or yields.
pub ghost struct WithdrawEffect {
    pub vault: VaultView,
    pub position: PositionView,
    pub tokens: int,
    /// Whether the position's storage may be reclaimed: only when no shares
    /// and no pending rewards remain.
    pub close_position: bool,
}

/// The withdrawal transition.  Rewards pending at withdrawal time are
/// settled against the pre-withdrawal share count; if the withdrawal empties
/// the position while rewards are pending, they are parked in `reward_debt`
/// and the position stays open so a later claim can pay them, otherwise an
/// emptied position may be reclaimed at once.
pub open spec fn spec_withdraw(
    v: VaultView,
    p: PositionView,
    user: AccountId,
    vault_id: AccountId,
    vault_balance: int,
    shares_req: int,
    now: int,
) -> Result<WithdrawEffect, VaultError> {
    if shares_req == 0 {
        Err(VaultError::InvalidAmount)
    } else if p.vault != vault_id {
        Err(VaultError::InvalidVault)
    } else if p.user != user {
        Err(VaultError::InvalidVault)
    } else if p.shares < shares_req {
        Err(VaultError::InsufficientShares)
    } else if spec_catch_up_overflows(v, now) {
        Err(VaultError::MathOverflow)
    } else {
        let cv = spec_caught_up(v, now);
        if cv.total_shares == 0 {
            Err(VaultError::DivisionByZero)
        } else {
            let t = spec_tokens_for_withdraw(shares_req, vault_balance, cv.total_shares);
            if t > u64::MAX {
                Err(VaultError::MathOverflow)
            } else if t == 0 {
                Err(VaultError::InvalidAmount)
            } else if cv.total_shares < shares_req {
                Err(VaultError::MathOverflow)
            } else if p.shares * cv.acc_reward_per_share > u128::MAX {
                Err(VaultError::MathOverflow)
            } else {
                let owed = p.shares * cv.acc_reward_per_share;
                let pending = if owed >= p.reward_debt {
                    owed - p.reward_debt
                } else {
                    0
                };
                let remaining = p.shares - shares_req;
                let new_debt = if remaining > 0 {
                    remaining * cv.acc_reward_per_share
                } else if pending > 0 {
                    pending
                } else {
                    0
                };
                Ok(
                    WithdrawEffect {
                        vault: VaultView { total_shares: cv.total_shares - shares_req, ..cv },
                        position: PositionView {
                            user: p.user,
                            vault: p.vault,
                            shares: remaining,
                            reward_debt: new_debt,
                        },
                        tokens: t,
                        close_position: remaining == 0 && pending == 0,
                    },
                )
            }
        }
    }
}

/// Burns `shares` of `user`'s claim and reports how many tokens the host
/// must pay out of vault custody (computed against the reserve balance
/// observed before that transfer).  When `close_position` comes back true
/// the host may release the position's storage.
pub fn withdraw(
    vault: &mut Vault,
    vault_id: AccountId,
    position: &mut UserPosition,
    user: AccountId,
    vault_balance: u64,
    shares: u64,
    now: i64,
) -> (r: Result<(u64, bool), VaultError>)
    ensures
        ({
            let s = spec_withdraw(
                old(vault)@,
                old(position)@,
                user,
                vault_id,
                vault_balance as int,
                shares as int,
                now as int,
            );
            match r {
                Ok((tokens, close_position)) => s is Ok && final(vault)@ == s->Ok_0.vault
                    && final(position)@ == s->Ok_0.position && tokens as int == s->Ok_0.tokens
                    && close_position == s->Ok_0.close_position,
                Err(e) => s is Err && e == s->Err_0 && final(vault)@ == old(vault)@
                    && final(position)@ == old(position)@,
            }
        }),
{
    if shares == 0 {
        return Err(VaultError::InvalidAmount);
    }
    if position.vault != vault_id {
        return Err(VaultError::InvalidVault);
    }
    if position.user != user {
        return Err(VaultError::InvalidVault);
    }
    if position.shares < shares {
        return Err(VaultError::InsufficientShares);
    }
    let new_acc: u128 = match caught_up_acc(vault, now) {
        Ok(a) => a,
        Err(e) => {
            return Err(e);
        },
    };
    let tokens: u64 = match calculate_tokens_for_withdraw(shares, vault_balance, vault.total_shares) {
        Ok(t) => t,
        Err(e) => {
            return Err(e);
        },
    };
    let new_total: u64 = match vault.total_shares.checked_sub(shares) {
        Some(t) => t,
        None => {
            return Err(VaultError::MathOverflow);
        },
    };
    let owed: u128 = match (position.shares as u128).checked_mul(new_acc) {
        Some(o) => o,
        None => {
            return Err(VaultError::MathOverflow);
        },
    };
    let pending: u128 = owed.saturating_sub(position.reward_debt);
    let remaining: u64 = position.shares - shares;
    let new_debt: u128 = if remaining > 0 {
        proof {
            lemma_mul_inequality(remaining as int, position.shares as int, new_acc as int);
        }
        (remaining as u128) * new_acc
    } else if pending > 0 {
        pending
    } else {
        0
    };
    let close_position: bool = remaining == 0 && pending == 0;
    vault.acc_reward_per_share = new_acc;
    vault.last_update_ts = now;
    vault.total_shares = new_total;
    position.shares = remaining;
    position.reward_debt = new_debt;
    Ok((tokens, close_position))
}

/// Everything a successful claim changes or yields.
pub ghost struct ClaimEffect {
    pub vault: VaultView,
    pub position: PositionView,
    pub payout: int,
    /// Whether the position's storage may be reclaimed: only when its shares
    /// are zero and its parked rewards have just been paid.
    pub close_position: bool,
}

/// The claim transition.  Ordinarily the pending reward is
/// `shares * acc_reward_per_share - reward_debt` (saturating at zero); once
/// shares have reached zero, `reward_debt` itself holds the pending amount
/// parked by a withdraw-to-zero.  The scaled amount is converted to asset
/// units by flooring out the fixed-point scale.  A claim with nothing
/// pending is a legal no-op, not an error; an underfunded reward pool is an
/// error, not a truncated payout.
pub open spec fn spec_claim(
    v: VaultView,
    p: PositionView,
    user: AccountId,
    vault_id: AccountId,
    reward_vault_balance: int,
    now: int,
) -> Result<ClaimEffect, VaultError> {
    if p.vault != vault_id {
        Err(VaultError::InvalidVault)
    } else if p.user != user {
        Err(VaultError::InvalidVault)
    } else if spec_catch_up_overflows(v, now) {
        Err(VaultError::MathOverflow)
    } else {
        let cv = spec_caught_up(v, now);
        if p.shares > 0 && p.shares * cv.acc_reward_per_share > u128::MAX {
            Err(VaultError::MathOverflow)
        } else {
            let pending_scaled = if p.shares == 0 {
                p.reward_debt
            } else {
                let owed = p.shares * cv.acc_reward_per_share;
                if owed >= p.reward_debt {
                    owed - p.reward_debt
                } else {
                    0
                }
            };
            let pending = pending_scaled / (REWARD_PRECISION as int);
            if pending == 0 {
                Ok(ClaimEffect { vault: cv, position: p, payout: 0, close_position: false })
            } else {
                let payout = if pending > u64::MAX {
                    u64::MAX as int
                } else {
                    pending
                };
                if reward_vault_balance < payout {
                    Err(VaultError::InsufficientRewardBalance)
                } else if p.shares > 0 {
                    Ok(
                        ClaimEffect {
                            vault: cv,
                            position: PositionView {
                                reward_debt: p.shares * cv.acc_reward_per_share,
                                ..p
                            },
                            payout,
                            close_position: false,
                        },
                    )
                } else {
                    Ok(
                        ClaimEffect {
                            vault: cv,
                            position: PositionView { reward_debt: 0, ..p },
                            payout,
                            close_position: true,
                        },
                    )
                }
            }
        }
    }
}

/// Pays `user`'s pending rewards and reports how much the host must move
/// out of reward custody, whose current balance is handed in; a shortfall
/// is reported rather than silently truncated.  When `close_position` comes
/// back true the host may release the position's storage.
pub fn claim_rewards(
    vault: &mut Vault,
    vault_id: AccountId,
    position: &mut UserPosition,
    user: AccountId,
    reward_vault_balance: u64,
    now: i64,
) -> (r: Result<(u64, bool), VaultError>)
    ensures
        ({
            let s = spec_claim(
                old(vault)@,
                old(position)@,
                user,
                vault_id,
                reward_vault_balance as int,
                now as int,
            );
            match r {
                Ok((payout, close_position)) => s is Ok && final(vault)@ == s->Ok_0.vault
                    && final(position)@ == s->Ok_0.position && payout as int == s->Ok_0.payout
                    && close_position == s->Ok_0.close_position,
                Err(e) => s is Err && e == s->Err_0 && final(vault)@ == old(vault)@
                    && final(position)@ == old(position)@,
            }
        }),
{
    if position.vault != vault_id {
        return Err(VaultError::InvalidVault);
    }
    if position.user != user {
        return Err(VaultError::InvalidVault);
    }
    let new_acc: u128 = match caught_up_acc(vault, now) {
        Ok(a) => a,
        Err(e) => {
            return Err(e);
        },
    };
    let (pending_scaled, settled_debt): (u128, u128) = if position.shares == 0 {
        (position.reward_debt, 0)
    } else {
        let owed: u128 = match (position.shares as u128).checked_mul(new_acc) {
            Some(o) => o,
            None => {
                return Err(VaultError::MathOverflow);
            },
        };
        (owed.saturating_sub(position.reward_debt), owed)
    };
    let pending: u128 = pending_scaled / REWARD_PRECISION;
    if pending == 0 {
        vault.acc_reward_per_share = new_acc;
        vault.last_update_ts = now;
        return Ok((0, false));
    }
    let payout: u64 = if pending > u64::MAX as u128 {
        u64::MAX
    } else {
        pending as u64
    };
    if reward_vault_balance < payout {
        return Err(VaultError::InsufficientRewardBalance);
    }
    let close_position: bool = position.shares == 0;
    position.reward_debt = if close_position {
        0
    } else {
        settled_debt
    };
    vault.acc_reward_per_share = new_acc;
    vault.last_update_ts = now;
    Ok((payout, close_position))
}

/// Records a funding of the reward stream: the host transfers `amount` of
/// the reward asset into reward custody, and a positive `reward_rate`
/// overwrites the emission rate.  The accumulator is deliberately not caught
/// up here; deposit, withdraw and claim all catch up before reading the
/// rate.
pub fn fund_rewards(vault: &mut Vault, amount: u64, reward_rate: u64) -> (r: Result<
    (),
    VaultError,
>)
    ensures
        amount == 0 ==> r == Err::<(), VaultError>(VaultError::InvalidAmount) && final(vault)@
            == old(vault)@,
        amount > 0 ==> r == Ok::<(), VaultError>(()) && final(vault)@ == (VaultView {
            reward_rate: if reward_rate > 0 {
                reward_rate as int
            } else {
                old(vault)@.reward_rate
            },
            ..old(vault)@
        }),
{
    if amount == 0 {
        return Err(VaultError::InvalidAmount);
    }
    if reward_rate > 0 {
        vault.reward_rate = reward_rate;
    }
    Ok(())
}

} // verus!
