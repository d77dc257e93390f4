//! The flash-loan primitive and its configuration.
//!
//! A flash loan is an uncollateralized borrow that must be repaid, plus a
//! fee, within the same indivisible unit of work.  The host brackets an
//! opaque callback invocation between [`flash_loan_begin`] and
//! [`flash_loan_settle`]: it validates and snapshots here, disburses the
//! principal, invokes the callback, re-reads the custody balance (which
//! reflects anything the callback did), and settles.  Repayment is enforced
//! purely on the net balance delta, so the borrower may repay through any
//! mechanism; a shortfall must make the host revert the disbursement and
//! everything the callback did.

use vstd::prelude::*;

use crate::math::calculate_flash_fee;
use crate::math::spec_flash_fee;
use crate::state::AccountId;
use crate::state::Vault;
use crate::state::VaultError;
use crate::state::VaultView;
use crate::state::MAX_CALLBACK_PROGRAMS;

verus! {

/// What the logic reads off a custody account the host hands in: which
/// asset it carries and who owns it.
#[derive(Clone, Copy, Debug, PartialEq, Eq, Structural)]
pub struct TokenAccountMeta {
    pub mint: AccountId,
    pub owner: AccountId,
}

/// The snapshot taken between validation and settlement of a flash loan.
#[derive(Clone, Copy, Debug, PartialEq, Eq, Structural)]
pub struct FlashLoanTerms {
    /// Principal disbursed to the borrower.
    pub amount: u64,
    /// Fee owed on top of the principal.
    pub fee: u64,
    /// Reserve custody balance recorded before the disbursement.
    pub balance_before: u64,
}

/// The configuration transition: admin-only; each field updates
/// independently; the fee must stay within 100% and the allow-list within
/// its cap, else nothing changes.
pub open spec fn spec_update_config(
    v: VaultView,
    caller: AccountId,
    flash_fee_bps: Option<u16>,
    fee_treasury: Option<AccountId>,
    callback_allowlist_enabled: Option<bool>,
    callback_allowlist: Option<Seq<AccountId>>,
) -> Result<VaultView, VaultError> {
    if v.authority != caller {
        Err(VaultError::InvalidVault)
    } else if match flash_fee_bps {
        Some(f) => f > 10000,
        None => false,
    } {
        Err(VaultError::InvalidAmount)
    } else if match callback_allowlist {
        Some(l) => l.len() > MAX_CALLBACK_PROGRAMS,
        None => false,
    } {
        Err(VaultError::MathOverflow)
    } else {
        Ok(
            VaultView {
                flash_fee_bps: match flash_fee_bps {
                    Some(f) => f as int,
                    None => v.flash_fee_bps,
                },
                fee_treasury: match fee_treasury {
                    Some(t) => t,
                    None => v.fee_treasury,
                },
                callback_allowlist_enabled: match callback_allowlist_enabled {
                    Some(e) => e,
                    None => v.callback_allowlist_enabled,
                },
                callback_allowlist: match callback_allowlist {
                    Some(l) => l,
                    None => v.callback_allowlist,
                },
                ..v
            },
        )
    }
}

/// Updates the flash-loan configuration.  Only the vault's authority may
/// call; on any rejection nothing changes.  Preserves well-formedness.
pub fn update_flash_loan_config(
    vault: &mut Vault,
    caller: AccountId,
    flash_fee_bps: Option<u16>,
    fee_treasury: Option<AccountId>,
    callback_allowlist_enabled: Option<bool>,
    callback_allowlist: Option<Vec<AccountId>>,
) -> (r: Result<(), VaultError>)
    ensures
        ({
            let wl = match callback_allowlist {
                Some(l) => Some(l@),
                None => None::<Seq<AccountId>>,
            };
            let s = spec_update_config(
                old(vault)@,
                caller,
                flash_fee_bps,
                fee_treasury,
                callback_allowlist_enabled,
                wl,
            );
            match r {
                Ok(()) => s is Ok && final(vault)@ == s->Ok_0,
                Err(e) => s is Err && e == s->Err_0 && final(vault)@ == old(vault)@,
            }
        }),
        old(vault)@.wf() && r is Ok ==> final(vault)@.wf(),
{
    if vault.authority != caller {
        return Err(VaultError::InvalidVault);
    }
    match flash_fee_bps {
        Some(f) => {
            if f > 10000 {
                return Err(VaultError::InvalidAmount);
            }
        },
        None => {},
    }
    match &callback_allowlist {
        Some(l) => {
            if l.len() > MAX_CALLBACK_PROGRAMS {
                return Err(VaultError::MathOverflow);
            }
        },
        None => {},
    }
    match flash_fee_bps {
        Some(f) => {
            vault.flash_fee_bps = f;
        },
        None => {},
    }
    match fee_treasury {
        Some(t) => {
            vault.fee_treasury = t;
        },
        None => {},
    }
    match callback_allowlist_enabled {
        Some(e) => {
            vault.callback_allowlist_enabled = e;
        },
        None => {},
    }
    match callback_allowlist {
        Some(l) => {
            vault.callback_allowlist = l;
        },
        None => {},
    }
    Ok(())
}

/// Whether `target` is one of the allow-listed identities.
fn allowlist_contains(list: &Vec<AccountId>, target: AccountId) -> (found: bool)
    ensures
        found == list@.contains(target),
{
    let mut i: usize = 0;
    while i < list.len()
        invariant
            i <= list.len(),
            forall|k: int| 0 <= k < i ==> list@[k] != target,
        decreases list.len() - i,
    {
        if list[i] == target {
            assert(list@[i as int] == target);
            return true;
        }
        i += 1;
    }
    false
}

/// The flash-loan validation and snapshot step: reject a zero principal, an
/// unconfigured fee treasury (a zero treasury identity disables flash
/// loans), custody accounts that do not match the vault's asset, the
/// borrower or the configured treasury, a callback target missing from an
/// enabled allow-list, and a principal the reserve cannot cover.  On
/// success the fee is `floor(amount * flash_fee_bps / 10000)`.
pub open spec fn spec_flash_loan_begin(
    v: VaultView,
    borrower: AccountId,
    borrower_account: TokenAccountMeta,
    treasury_account: TokenAccountMeta,
    callback_program: AccountId,
    balance_before: int,
    amount: int,
) -> Result<int, VaultError> {
    if amount == 0 {
        Err(VaultError::InvalidFlashLoanAmount)
    } else if v.fee_treasury == 0 {
        Err(VaultError::FlashLoanNotConfigured)
    } else if borrower_account.mint != v.token_mint {
        Err(VaultError::InvalidTokenMint)
    } else if borrower_account.owner != borrower {
        Err(VaultError::InvalidTokenMint)
    } else if treasury_account.mint != v.token_mint {
        Err(VaultError::InvalidFeeTreasury)
    } else if treasury_account.owner != v.fee_treasury {
        Err(VaultError::InvalidFeeTreasury)
    } else if v.callback_allowlist_enabled && !v.callback_allowlist.contains(callback_program) {
        Err(VaultError::CallbackNotAllowlisted)
    } else if balance_before < amount {
        Err(VaultError::InsufficientVaultBalance)
    } else {
        Ok(spec_flash_fee(amount, v.flash_fee_bps))
    }
}

/// Validates a flash loan of `amount` and fixes its terms against the
/// reserve balance observed now.  On `Ok` the host disburses `amount` to
/// the borrower, invokes the callback, re-reads the balance and calls
/// [`flash_loan_settle`]; on `Err` nothing may be disbursed.
pub fn flash_loan_begin(
    vault: &Vault,
    borrower: AccountId,
    borrower_account: TokenAccountMeta,
    treasury_account: TokenAccountMeta,
    callback_program: AccountId,
    balance_before: u64,
    amount: u64,
) -> (r: Result<FlashLoanTerms, VaultError>)
    requires
        vault@.wf(),
    ensures
        ({
            let s = spec_flash_loan_begin(
                vault@,
                borrower,
                borrower_account,
                treasury_account,
                callback_program,
                balance_before as int,
                amount as int,
            );
            match r {
                Ok(terms) => s is Ok && terms.fee as int == s->Ok_0 && terms.amount == amount
                    && terms.balance_before == balance_before && terms.fee <= amount,
                Err(e) => s is Err && e == s->Err_0,
            }
        }),
{
    if amount == 0 {
        return Err(VaultError::InvalidFlashLoanAmount);
    }
    if vault.fee_treasury == 0 {
        return Err(VaultError::FlashLoanNotConfigured);
    }
    if borrower_account.mint != vault.token_mint {
        return Err(VaultError::InvalidTokenMint);
    }
    if borrower_account.owner != borrower {
        return Err(VaultError::InvalidTokenMint);
    }
    if treasury_account.mint != vault.token_mint {
        return Err(VaultError::InvalidFeeTreasury);
    }
    if treasury_account.owner != vault.fee_treasury {
        return Err(VaultError::InvalidFeeTreasury);
    }
    if vault.callback_allowlist_enabled && !allowlist_contains(
        &vault.callback_allowlist,
        callback_program,
    ) {
        return Err(VaultError::CallbackNotAllowlisted);
    }
    if balance_before < amount {
        return Err(VaultError::InsufficientVaultBalance);
    }
    let fee: u64 = calculate_flash_fee(amount, vault.flash_fee_bps);
    Ok(FlashLoanTerms { amount, fee, balance_before })
}

/// The repayment check, on the custody balance re-read after the callback
/// returned: the vault must hold at least what it held before the
/// disbursement, plus the fee.  Only the net delta matters, so repayment
/// may arrive through any mechanism.  On `Ok` the host routes the returned
/// fee to the treasury; on `Err` it must revert the whole operation,
/// disbursement and callback effects included.
pub fn flash_loan_settle(terms: &FlashLoanTerms, balance_after: u64) -> (r: Result<
    u64,
    VaultError,
>)
    ensures
        terms.balance_before + terms.fee > u64::MAX ==> r == Err::<u64, VaultError>(
            VaultError::MathOverflow,
        ),
        terms.balance_before + terms.fee <= u64::MAX && balance_after >= terms.balance_before
            + terms.fee ==> r == Ok::<u64, VaultError>(terms.fee),
        terms.balance_before + terms.fee <= u64::MAX && balance_after < terms.balance_before
            + terms.fee ==> r == Err::<u64, VaultError>(VaultError::InsufficientRepayment),
{
    let required: u64 = match terms.balance_before.checked_add(terms.fee) {
        Some(b) => b,
        None => {
            return Err(VaultError::MathOverflow);
        },
    };
    if balance_after >= required {
        Ok(terms.fee)
    } else {
        Err(VaultError::InsufficientRepayment)
    }
}

} // verus!
