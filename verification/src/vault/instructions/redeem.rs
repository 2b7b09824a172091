//! A holder burns shares for the vault's asset, less the withdrawal fee.
//!
//! This is the decision half: the caller burns `shares`, pays `fees` to the
//! fee recipient and `final_amount` to the redeemer. Every check happens
//! before the vault is written.

use crate::key::{zero_bytes, Pubkey};
use crate::vault::errors::ErrorCode;
use crate::vault::state::vault::{
    assets_for_redeem_outcome, resolved_offset, VaultState, FEE_RATE_DENOMINATOR_VALUE,
};
use vstd::prelude::*;

verus! {

/// What a redemption pays out.
#[derive(Clone, Copy, Debug, PartialEq, Eq, Structural)]
pub struct RedeemOutcome {
    /// Assets the burned shares are worth; leaves the reserve.
    pub assets: u64,
    /// The withdrawal fee, to the fee recipient.
    pub fees: u64,
    /// What the redeemer receives: `assets - fees`.
    pub final_amount: u64,
}

/// `ceil(numerator / denominator)` as `(numerator + denominator - 1) / denominator`,
/// `None` when that sum leaves `u128` or the denominator is zero.
pub open spec fn spec_ceil_div(numerator: u128, denominator: u128) -> Option<u128> {
    if numerator + denominator > u128::MAX || numerator + denominator < 1 || denominator == 0 {
        None
    } else {
        Some(((numerator + denominator - 1) / (denominator as int)) as u128)
    }
}

/// Division rounding up, in the checked form the fee computation uses.
pub fn ceil_div(numerator: u128, denominator: u128) -> (r: Option<u128>)
    ensures
        r == spec_ceil_div(numerator, denominator),
{
    let sum = match numerator.checked_add(denominator) {
        Some(v) => v,
        None => return None,
    };
    if sum < 1 {
        return None;
    }
    let less_one = sum - 1;
    less_one.checked_div(denominator)
}

/// The fee on `assets` at rate `fee`: `ceil(assets * fee / FEE_RATE_DENOMINATOR_VALUE)`.
pub open spec fn fee_on(assets: u64, fee: u32) -> int {
    (assets * fee + FEE_RATE_DENOMINATOR_VALUE - 1) / (FEE_RATE_DENOMINATOR_VALUE as int)
}

/// Why a redemption of `shares` by `signer` is refused, if it is, in the order
/// the instruction checks.
pub open spec fn redeem_refusal(
    vault: VaultState,
    share_supply: u64,
    signer: Pubkey,
    shares: u64,
    min_assets_out: u64,
) -> Option<ErrorCode> {
    let total = vault.local_aum + vault.deployed_aum;
    let priced = assets_for_redeem_outcome(
        share_supply,
        total as u64,
        shares,
        resolved_offset(vault.share_offset),
    );
    let gated = vault.withdrawal_queue_authority@ != zero_bytes();
    if shares == 0 {
        Some(ErrorCode::ZeroAmount)
    } else if vault.paused {
        Some(ErrorCode::VaultPaused)
    } else if gated && signer != vault.withdrawal_queue_authority {
        Some(ErrorCode::WithdrawalQueueRequired)
    } else if total > u64::MAX {
        Some(ErrorCode::MathError)
    } else if priced is Err {
        Some(priced->Err_0)
    } else if priced->Ok_0 == 0 {
        Some(ErrorCode::ZeroAmount)
    } else if fee_on(priced->Ok_0, vault.withdrawal_fee) > u64::MAX {
        Some(ErrorCode::NumberOverflow)
    } else if fee_on(priced->Ok_0, vault.withdrawal_fee) > priced->Ok_0 {
        Some(ErrorCode::MathError)
    } else if priced->Ok_0 - fee_on(priced->Ok_0, vault.withdrawal_fee) < min_assets_out {
        Some(ErrorCode::SlippageExceeded)
    } else if priced->Ok_0 > vault.local_aum {
        Some(ErrorCode::NotEnoughLiquidity)
    } else {
        None
    }
}

/// What a redemption returns and does to the vault, for any minimum payout.
pub open spec fn redeem_effect(
    old_vault: VaultState,
    new_vault: VaultState,
    share_supply: u64,
    signer: Pubkey,
    shares: u64,
    min_assets_out: u64,
    r: Result<RedeemOutcome, ErrorCode>,
) -> bool {
    match redeem_refusal(old_vault, share_supply, signer, shares, min_assets_out) {
        Some(e) => r == Err::<RedeemOutcome, ErrorCode>(e) && new_vault == old_vault,
        None => {
            let assets = assets_for_redeem_outcome(
                share_supply,
                (old_vault.local_aum + old_vault.deployed_aum) as u64,
                shares,
                resolved_offset(old_vault.share_offset),
            )->Ok_0;
            let fees = fee_on(assets, old_vault.withdrawal_fee);
            &&& r == Ok::<RedeemOutcome, ErrorCode>(
                RedeemOutcome {
                    assets,
                    fees: fees as u64,
                    final_amount: (assets - fees) as u64,
                },
            )
            &&& new_vault == (VaultState {
                local_aum: (old_vault.local_aum - assets) as u64,
                ..old_vault
            })
        },
    }
}

fn redeem_with_minimum(
    vault: &mut VaultState,
    share_supply: u64,
    signer: Pubkey,
    shares: u64,
    min_assets_out: u64,
) -> (r: Result<RedeemOutcome, ErrorCode>)
    ensures
        redeem_effect(*old(vault), *final(vault), share_supply, signer, shares, min_assets_out, r),
{
    if shares == 0 {
        return Err(ErrorCode::ZeroAmount);
    }
    if vault.paused {
        return Err(ErrorCode::VaultPaused);
    }
    match vault.withdrawal_queue() {
        Some(queue) => {
            if !queue.same(&signer) {
                return Err(ErrorCode::WithdrawalQueueRequired);
            }
        },
        None => {},
    }
    let total_assets = match vault.total_assets() {
        Ok(t) => t,
        Err(e) => return Err(e),
    };
    let assets = match vault.assets_for_redeem(share_supply, total_assets, shares) {
        Ok(a) => a,
        Err(e) => return Err(e),
    };
    if assets == 0 {
        return Err(ErrorCode::ZeroAmount);
    }
    assert((assets as int) * (vault.withdrawal_fee as int) <= (u64::MAX as int) * (
    u32::MAX as int)) by (nonlinear_arith)
        requires
            assets <= u64::MAX,
            vault.withdrawal_fee <= u32::MAX,
    ;
    let fee_numerator = (assets as u128) * (vault.withdrawal_fee as u128);
    let fees_wide = match ceil_div(fee_numerator, FEE_RATE_DENOMINATOR_VALUE as u128) {
        Some(v) => v,
        None => return Err(ErrorCode::MathError),
    };
    if fees_wide > u64::MAX as u128 {
        return Err(ErrorCode::NumberOverflow);
    }
    let fees = fees_wide as u64;
    if fees > assets {
        return Err(ErrorCode::MathError);
    }
    let final_amount = assets - fees;
    if final_amount < min_assets_out {
        return Err(ErrorCode::SlippageExceeded);
    }
    if assets > vault.local_aum {
        return Err(ErrorCode::NotEnoughLiquidity);
    }
    vault.local_aum = vault.local_aum - assets;
    Ok(RedeemOutcome { assets, fees, final_amount })
}

/// Redeem `shares` for `signer` against a share mint with `share_supply`
/// outstanding. A vault with a withdrawal queue attached accepts only that
/// queue as `signer` (`WithdrawalQueueRequired`). On success `local_aum`
/// drops by the priced assets and nothing else changes; the fee is
/// `ceil(assets * withdrawal_fee / FEE_RATE_DENOMINATOR_VALUE)`. See
/// [`redeem_refusal`] for every refusal and its order.
pub fn handler(vault: &mut VaultState, share_supply: u64, signer: Pubkey, shares: u64) -> (r: Result<
    RedeemOutcome,
    ErrorCode,
>)
    ensures
        redeem_effect(*old(vault), *final(vault), share_supply, signer, shares, 0, r),
{
    redeem_with_minimum(vault, share_supply, signer, shares, 0)
}

/// As [`handler`], refusing with `SlippageExceeded` when the payout net of
/// the fee would fall below `min_assets_out`.
pub fn handler_checked(
    vault: &mut VaultState,
    share_supply: u64,
    signer: Pubkey,
    shares: u64,
    min_assets_out: u64,
) -> (r: Result<RedeemOutcome, ErrorCode>)
    ensures
        redeem_effect(*old(vault), *final(vault), share_supply, signer, shares, min_assets_out, r),
{
    redeem_with_minimum(vault, share_supply, signer, shares, min_assets_out)
}

} // verus!
