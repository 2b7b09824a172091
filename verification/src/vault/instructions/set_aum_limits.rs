//! The admin sets the AUM change limits.

use crate::key::Pubkey;
use crate::vault::errors::ErrorCode;
use crate::vault::state::vault::{VaultState, BPS_DENOMINATOR};
use vstd::prelude::*;

verus! {

/// Set both AUM change limits, each at most 10 000 basis points (100%).
/// `NotAdmin` unless `admin` is the vault's admin, then `AumLimitTooHigh`.
pub fn handler(
    vault: &mut VaultState,
    admin: Pubkey,
    increase_limit: u32,
    decrease_limit: u32,
) -> (r: Result<(), ErrorCode>)
    ensures
        if admin != old(vault).admin {
            r == Err::<(), ErrorCode>(ErrorCode::NotAdmin) && *final(vault) == *old(vault)
        } else if increase_limit > BPS_DENOMINATOR || decrease_limit > BPS_DENOMINATOR {
            r == Err::<(), ErrorCode>(ErrorCode::AumLimitTooHigh) && *final(vault) == *old(vault)
        } else {
            r == Ok::<(), ErrorCode>(()) && *final(vault) == (VaultState {
                aum_increase_limit: increase_limit,
                aum_decrease_limit: decrease_limit,
                ..*old(vault)
            })
        },
{
    if !admin.same(&vault.admin) {
        return Err(ErrorCode::NotAdmin);
    }
    if increase_limit > BPS_DENOMINATOR {
        return Err(ErrorCode::AumLimitTooHigh);
    }
    if decrease_limit > BPS_DENOMINATOR {
        return Err(ErrorCode::AumLimitTooHigh);
    }
    vault.aum_increase_limit = increase_limit;
    vault.aum_decrease_limit = decrease_limit;
    Ok(())
}

} // verus!
