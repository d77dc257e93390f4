//! The reward accumulator: per-share reward density tracked globally and
//! caught up lazily whenever an operation touches the vault.
//!
//! `acc_reward_per_share` advances by `reward_rate * elapsed * SCALE /
//! total_shares` (floor, double-width) and each depositor's pending reward is
//! `shares * acc_reward_per_share - reward_debt`, computed at touch time
//! rather than by iterating over depositors.

use vstd::arithmetic::mul::lemma_mul_upper_bound;
use vstd::prelude::*;

use crate::state::Vault;
use crate::state::VaultError;
use crate::state::VaultView;
use crate::state::REWARD_PRECISION;

verus! {

/// Time elapsed since the last catch-up, clamped below at zero so that a
/// clock reading behind the stored timestamp emits nothing.
pub open spec fn spec_elapsed(last_update_ts: int, now: int) -> int {
    if now >= last_update_ts {
        now - last_update_ts
    } else {
        0
    }
}

/// What one catch-up adds to `acc_reward_per_share`:
/// `floor(reward_rate * elapsed * SCALE / total_shares)`.
/// Meaningful only when `total_shares > 0`.
pub open spec fn spec_acc_increment(reward_rate: int, elapsed: int, total_shares: int) -> int {
    (reward_rate * elapsed * (REWARD_PRECISION as int)) / total_shares
}

/// A catch-up with nothing elapsed or no shares outstanding only advances
/// the timestamp.
pub open spec fn spec_catch_up_skips(v: VaultView, now: int) -> bool {
    spec_elapsed(v.last_update_ts, now) == 0 || v.total_shares == 0
}

/// The catch-up fails (and changes nothing) exactly when an intermediate or
/// final accumulator value exceeds the 128-bit range.
pub open spec fn spec_catch_up_overflows(v: VaultView, now: int) -> bool {
    &&& !spec_catch_up_skips(v, now)
    &&& ({
        let scaled = v.reward_rate * spec_elapsed(v.last_update_ts, now) * (
        REWARD_PRECISION as int);
        ||| scaled > u128::MAX
        ||| v.acc_reward_per_share + scaled / v.total_shares > u128::MAX
    })
}

/// The vault after a successful catch-up to `now`: the accumulator advanced
/// (or kept, in the idempotent cases), the timestamp set to `now`, and every
/// other field unchanged.
pub open spec fn spec_caught_up(v: VaultView, now: int) -> VaultView {
    if spec_catch_up_skips(v, now) {
        VaultView { last_update_ts: now, ..v }
    } else {
        VaultView {
            acc_reward_per_share: v.acc_reward_per_share + spec_acc_increment(
                v.reward_rate,
                spec_elapsed(v.last_update_ts, now),
                v.total_shares,
            ),
            last_update_ts: now,
            ..v
        }
    }
}

/// The caught-up accumulator value, computed without touching the vault, so
/// that an operation can validate everything before committing any write.
pub fn caught_up_acc(vault: &Vault, current_ts: i64) -> (r: Result<u128, VaultError>)
    ensures
        spec_catch_up_overflows(vault@, current_ts as int) ==> r == Err::<u128, VaultError>(
            VaultError::MathOverflow,
        ),
        !spec_catch_up_overflows(vault@, current_ts as int) ==> r is Ok && r->Ok_0
            == spec_caught_up(vault@, current_ts as int).acc_reward_per_share,
        r is Ok ==> r->Ok_0 >= vault.acc_reward_per_share,
{
    let diff: i128 = (current_ts as i128) - (vault.last_update_ts as i128);
    let elapsed: u64 = if diff <= 0 {
        0
    } else {
        diff as u64
    };
    if elapsed == 0 || vault.total_shares == 0 {
        return Ok(vault.acc_reward_per_share);
    }
    proof {
        lemma_mul_upper_bound(
            vault.reward_rate as int,
            u64::MAX as int,
            elapsed as int,
            u64::MAX as int,
        );
    }
    let emitted: u128 = (vault.reward_rate as u128) * (elapsed as u128);
    let scaled: u128 = match emitted.checked_mul(REWARD_PRECISION) {
        Some(s) => s,
        None => {
            return Err(VaultError::MathOverflow);
        },
    };
    let increment: u128 = scaled / (vault.total_shares as u128);
    match vault.acc_reward_per_share.checked_add(increment) {
        Some(a) => Ok(a),
        None => Err(VaultError::MathOverflow),
    }
}

/// Catches the accumulator up to `current_ts`.  Idempotent: a second call at
/// the same timestamp, or any call with zero principal staked, changes
/// nothing but the timestamp.  On overflow nothing changes at all.
pub fn update_rewards(vault: &mut Vault, current_ts: i64) -> (r: Result<(), VaultError>)
    ensures
        spec_catch_up_overflows(old(vault)@, current_ts as int) ==> r == Err::<(), VaultError>(
            VaultError::MathOverflow,
        ) && final(vault)@ == old(vault)@,
        !spec_catch_up_overflows(old(vault)@, current_ts as int) ==> r == Ok::<(), VaultError>(())
            && final(vault)@ == spec_caught_up(old(vault)@, current_ts as int),
        final(vault)@.acc_reward_per_share >= old(vault)@.acc_reward_per_share,
{
    let new_acc: u128 = match caught_up_acc(vault, current_ts) {
        Ok(a) => a,
        Err(e) => {
            return Err(e);
        },
    };
    vault.acc_reward_per_share = new_acc;
    vault.last_update_ts = current_ts;
    Ok(())
}

} // verus!
