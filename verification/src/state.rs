//! Core data model: the vault, per-depositor positions, and the error type.

use vstd::prelude::*;

verus! {

/// Opaque identity of a ledger account (a depositor, a mint, a custody
/// account, a callback program).  The host maps its real addresses onto
/// these tokens; the logic only ever compares them for equality.  The zero
/// value stands for "unset", as an all-zero address does on the host.
pub type AccountId = u64;

/// Fixed-point scale for `acc_reward_per_share` (10^12): reward amounts per
/// share are stored multiplied by this factor to preserve precision under
/// integer division.
pub const REWARD_PRECISION: u128 = 1_000_000_000_000;

/// Cap on the number of entries in the flash-loan callback allow-list.
pub const MAX_CALLBACK_PROGRAMS: usize = 10;

/// Typed failures.  Every operation surfaces its errors synchronously and
/// leaves all state untouched when it fails.
#[derive(Clone, Copy, Debug, PartialEq, Eq, Structural)]
pub enum VaultError {
    /// A withdrawal asked for more shares than the position holds.
    InsufficientShares,
    /// An account identity does not match the vault it claims to belong to.
    InvalidVault,
    /// A position is bound to a different depositor.
    InvalidUserPosition,
    /// A custody account carries the wrong asset.
    InvalidTokenMint,
    /// A zero amount, or an operation that would grant or pay out zero.
    InvalidAmount,
    /// A division whose divisor is zero (no shares outstanding).
    DivisionByZero,
    /// A checked arithmetic step overflowed.
    MathOverflow,
    /// The reserve holds less than the requested flash-loan principal.
    InsufficientVaultBalance,
    /// The reward custody account cannot cover a pending claim.
    InsufficientRewardBalance,
    /// The reward custody account handed in is not the vault's.
    RewardVaultMismatch,
    /// A reward account carries the wrong reward asset.
    InvalidRewardMint,
    /// Flash loans were invoked before a fee treasury was configured.
    FlashLoanNotConfigured,
    /// A zero flash-loan principal.
    InvalidFlashLoanAmount,
    /// The callback target is not on the enabled allow-list.
    CallbackNotAllowlisted,
    /// The balance after the callback fell short of principal plus fee.
    InsufficientRepayment,
    /// The fee-treasury account does not match the configured treasury.
    InvalidFeeTreasury,
}

/// Mathematical model of a vault: machine integers widened to `int`, the
/// allow-list as a sequence.  Contracts speak of this view.
pub ghost struct VaultView {
    pub authority: AccountId,
    pub token_mint: AccountId,
    pub total_shares: int,
    pub reward_rate: int,
    pub acc_reward_per_share: int,
    pub last_update_ts: int,
    pub reward_mint: AccountId,
    pub reward_vault: AccountId,
    pub flash_fee_bps: int,
    pub fee_treasury: AccountId,
    pub callback_allowlist_enabled: bool,
    pub callback_allowlist: Seq<AccountId>,
}

/// One vault per underlying asset.  `total_shares` is the sum of all
/// outstanding claims; `acc_reward_per_share` is the cumulative reward earned
/// by one share since inception, scaled by [`REWARD_PRECISION`], and never
/// decreases.  The reserve balance itself is not stored: it is observed from
/// the asset custody account and handed in by the host.
#[derive(Clone, Debug)]
pub struct Vault {
    /// Identity permitted to change the flash-loan configuration.
    pub authority: AccountId,
    /// Identifier of the pooled asset.
    pub token_mint: AccountId,
    /// Sum of all outstanding shares.
    pub total_shares: u64,
    /// Rewards emitted per unit time, set by funding calls.
    pub reward_rate: u64,
    /// Cumulative rewards per share since inception, fixed-point scaled.
    pub acc_reward_per_share: u128,
    /// Timestamp of the last reward catch-up.
    pub last_update_ts: i64,
    /// Identifier of the reward asset.
    pub reward_mint: AccountId,
    /// Identity of the reward custody account.
    pub reward_vault: AccountId,
    /// Flash-loan fee in basis points (0..=10000) on the principal.
    pub flash_fee_bps: u16,
    /// Destination for collected fees; zero disables flash loans.
    pub fee_treasury: AccountId,
    /// Whether the callback allow-list is enforced.
    pub callback_allowlist_enabled: bool,
    /// Identities permitted as flash-loan callback targets.
    pub callback_allowlist: Vec<AccountId>,
}

impl View for Vault {
    type V = VaultView;

    open spec fn view(&self) -> VaultView {
        VaultView {
            authority: self.authority,
            token_mint: self.token_mint,
            total_shares: self.total_shares as int,
            reward_rate: self.reward_rate as int,
            acc_reward_per_share: self.acc_reward_per_share as int,
            last_update_ts: self.last_update_ts as int,
            reward_mint: self.reward_mint,
            reward_vault: self.reward_vault,
            flash_fee_bps: self.flash_fee_bps as int,
            fee_treasury: self.fee_treasury,
            callback_allowlist_enabled: self.callback_allowlist_enabled,
            callback_allowlist: self.callback_allowlist@,
        }
    }
}

impl VaultView {
    /// Well-formedness over and above what the machine types force: the fee
    /// is a basis-point value and the allow-list respects its cap.
    /// Constructors establish it and every operation preserves it.
    pub open spec fn wf(self) -> bool {
        &&& 0 <= self.flash_fee_bps <= 10000
        &&& self.callback_allowlist.len() <= MAX_CALLBACK_PROGRAMS
    }
}

/// Mathematical model of a depositor's position.
pub ghost struct PositionView {
    pub user: AccountId,
    pub vault: AccountId,
    pub shares: int,
    pub reward_debt: int,
}

/// One per depositor per vault, created lazily on first deposit.
///
/// `reward_debt` ordinarily holds `shares * acc_reward_per_share` as of the
/// last settlement.  After a withdrawal empties the position while rewards
/// are still owed, it instead holds those pending rewards (scaled) directly,
/// and `shares == 0` marks that reading; the position stays open until the
/// rewards are claimed.
#[derive(Clone, Copy, Debug)]
pub struct UserPosition {
    /// The depositor this position belongs to.
    pub user: AccountId,
    /// The vault this position belongs to.
    pub vault: AccountId,
    /// This depositor's claim, in the same unit as `Vault::total_shares`.
    pub shares: u64,
    /// Settled baseline, or pending rewards once `shares` is zero.
    pub reward_debt: u128,
}

impl View for UserPosition {
    type V = PositionView;

    open spec fn view(&self) -> PositionView {
        PositionView {
            user: self.user,
            vault: self.vault,
            shares: self.shares as int,
            reward_debt: self.reward_debt as int,
        }
    }
}

/// Creates a vault with no shares, no rewards accrued, and flash loans
/// disabled until configured.
pub fn initialize_vault(
    authority: AccountId,
    token_mint: AccountId,
    reward_mint: AccountId,
    reward_vault: AccountId,
    now: i64,
) -> (v: Vault)
    ensures
        v@ == (VaultView {
            authority,
            token_mint,
            total_shares: 0,
            reward_rate: 0,
            acc_reward_per_share: 0,
            last_update_ts: now as int,
            reward_mint,
            reward_vault,
            flash_fee_bps: 0,
            fee_treasury: 0,
            callback_allowlist_enabled: false,
            callback_allowlist: Seq::<AccountId>::empty(),
        }),
        v@.wf(),
{
    Vault {
        authority,
        token_mint,
        total_shares: 0,
        reward_rate: 0,
        acc_reward_per_share: 0,
        last_update_ts: now,
        reward_mint,
        reward_vault,
        flash_fee_bps: 0,
        fee_treasury: 0,
        callback_allowlist_enabled: false,
        callback_allowlist: Vec::new(),
    }
}

} // verus!
