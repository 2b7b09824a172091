//! A holder deposits the vault's asset and receives shares.
//!
//! This is the decision half of the instruction: the caller moves `amount`
//! into the reserve and mints the returned share count; every check that can
//! refuse the deposit happens here first.

use crate::vault::errors::ErrorCode;
use crate::vault::state::vault::{
    offset_floor, resolved_offset, shares_for_deposit_outcome, spec_min_first_deposit_for,
    VaultState,
};
use vstd::prelude::*;

verus! {

/// Why a deposit of `amount` is refused, if it is, with `minted` the shares it
/// would price at: checked in the order the instruction checks them.
pub open spec fn deposit_refusal(
    vault: VaultState,
    share_supply: u64,
    deposit_decimals: u8,
    amount: u64,
    min_shares_out: u64,
) -> Option<ErrorCode> {
    let offset = resolved_offset(vault.share_offset);
    let total = vault.local_aum + vault.deployed_aum;
    let priced = shares_for_deposit_outcome(share_supply, total as u64, amount, offset);
    if amount == 0 {
        Some(ErrorCode::ZeroAmount)
    } else if vault.paused {
        Some(ErrorCode::VaultPaused)
    } else if share_supply == 0 && amount < spec_min_first_deposit_for(deposit_decimals, offset) {
        Some(ErrorCode::InsufficientAmount)
    } else if total > u64::MAX {
        Some(ErrorCode::MathError)
    } else if priced is Err {
        Some(priced->Err_0)
    } else if share_supply == 0 && priced->Ok_0 < offset_floor(offset) {
        Some(ErrorCode::InsufficientAmount)
    } else if priced->Ok_0 == 0 {
        Some(ErrorCode::ZeroAmount)
    } else if priced->Ok_0 < min_shares_out {
        Some(ErrorCode::SlippageExceeded)
    } else if vault.local_aum + amount > u64::MAX {
        Some(ErrorCode::NumberOverflow)
    } else {
        None
    }
}

/// The shares a deposit that is not refused mints.
pub open spec fn deposit_minted(vault: VaultState, share_supply: u64, amount: u64) -> u64 {
    shares_for_deposit_outcome(
        share_supply,
        (vault.local_aum + vault.deployed_aum) as u64,
        amount,
        resolved_offset(vault.share_offset),
    )->Ok_0
}

/// What a deposit returns and does to the vault, for any minimum share output.
pub open spec fn deposit_effect(
    old_vault: VaultState,
    new_vault: VaultState,
    share_supply: u64,
    deposit_decimals: u8,
    amount: u64,
    min_shares_out: u64,
    r: Result<u64, ErrorCode>,
) -> bool {
    match deposit_refusal(old_vault, share_supply, deposit_decimals, amount, min_shares_out) {
        Some(e) => r == Err::<u64, ErrorCode>(e) && new_vault == old_vault,
        None => r == Ok::<u64, ErrorCode>(deposit_minted(old_vault, share_supply, amount))
            && new_vault == (VaultState {
            local_aum: (old_vault.local_aum + amount) as u64,
            ..old_vault
        }),
    }
}

/// Deposit `amount` into a vault whose share mint has `share_supply`
/// outstanding and whose asset has `deposit_decimals` decimals; returns the
/// shares to mint to the depositor, at or above `min_shares_out`.
///
/// Refuses a zero amount, a paused vault, a first deposit below the vault's
/// minimum, a deposit that prices to no shares, an opening supply below
/// [`VaultState::min_opening_supply`], fewer shares than `min_shares_out`
/// (`SlippageExceeded`), and any arithmetic overflow. On success the vault's
/// `local_aum` grows by `amount` and nothing else changes; on refusal nothing
/// changes.
fn deposit_with_minimum(
    vault: &mut VaultState,
    share_supply: u64,
    deposit_decimals: u8,
    amount: u64,
    min_shares_out: u64,
) -> (r: Result<u64, ErrorCode>)
    ensures
        deposit_effect(
            *old(vault),
            *final(vault),
            share_supply,
            deposit_decimals,
            amount,
            min_shares_out,
            r,
        ),
{
    if amount == 0 {
        return Err(ErrorCode::ZeroAmount);
    }
    if vault.paused {
        return Err(ErrorCode::VaultPaused);
    }
    if share_supply == 0 {
        let min_deposit = vault.min_first_deposit(deposit_decimals);
        if amount < min_deposit {
            return Err(ErrorCode::InsufficientAmount);
        }
    }
    let total_assets = match vault.total_assets() {
        Ok(t) => t,
        Err(e) => return Err(e),
    };
    let shares = match vault.shares_for_deposit(share_supply, total_assets, amount) {
        Ok(s) => s,
        Err(e) => return Err(e),
    };
    if share_supply == 0 && shares < vault.min_opening_supply() {
        return Err(ErrorCode::InsufficientAmount);
    }
    if shares == 0 {
        return Err(ErrorCode::ZeroAmount);
    }
    if shares < min_shares_out {
        return Err(ErrorCode::SlippageExceeded);
    }
    let local_aum = match vault.local_aum.checked_add(amount) {
        Some(v) => v,
        None => return Err(ErrorCode::NumberOverflow),
    };
    vault.local_aum = local_aum;
    Ok(shares)
}

/// Deposit `amount`; returns the shares to mint. See [`deposit_refusal`] for
/// every refusal and its order.
pub fn handler(vault: &mut VaultState, share_supply: u64, deposit_decimals: u8, amount: u64) -> (r:
    Result<u64, ErrorCode>)
    ensures
        deposit_effect(*old(vault), *final(vault), share_supply, deposit_decimals, amount, 0, r),
{
    deposit_with_minimum(vault, share_supply, deposit_decimals, amount, 0)
}

/// As [`handler`], refusing with `SlippageExceeded` when the deposit would
/// mint fewer than `min_shares_out` shares.
pub fn handler_checked(
    vault: &mut VaultState,
    share_supply: u64,
    deposit_decimals: u8,
    amount: u64,
    min_shares_out: u64,
) -> (r: Result<u64, ErrorCode>)
    ensures
        deposit_effect(
            *old(vault),
            *final(vault),
            share_supply,
            deposit_decimals,
            amount,
            min_shares_out,
            r,
        ),
{
    deposit_with_minimum(vault, share_supply, deposit_decimals, amount, min_shares_out)
}

} // verus!
