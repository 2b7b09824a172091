//! The admin sets the withdrawal fee.

use crate::key::Pubkey;
use crate::vault::errors::ErrorCode;
use crate::vault::state::vault::{VaultState, FEE_RATE_DENOMINATOR_VALUE};
use vstd::prelude::*;

verus! {

/// The fee must stay strictly below 10% of [`FEE_RATE_DENOMINATOR_VALUE`].
pub const MAX_WITHDRAWAL_FEE_EXCLUSIVE: u32 = 100_000;

/// Set `withdrawal_fee` to `new_fee`. `NotAdmin` unless `admin` is the
/// vault's admin, then `WithdrawalFeeTooHigh` at or above 10%.
pub fn handler(vault: &mut VaultState, admin: Pubkey, new_fee: u32) -> (r: Result<(), ErrorCode>)
    ensures
        if admin != old(vault).admin {
            r == Err::<(), ErrorCode>(ErrorCode::NotAdmin) && *final(vault) == *old(vault)
        } else if new_fee >= 10 * FEE_RATE_DENOMINATOR_VALUE / 100 {
            r == Err::<(), ErrorCode>(ErrorCode::WithdrawalFeeTooHigh) && *final(vault) == *old(
                vault,
            )
        } else {
            r == Ok::<(), ErrorCode>(()) && *final(vault) == (VaultState {
                withdrawal_fee: new_fee,
                ..*old(vault)
            })
        },
{
    if !admin.same(&vault.admin) {
        return Err(ErrorCode::NotAdmin);
    }
    if new_fee >= MAX_WITHDRAWAL_FEE_EXCLUSIVE {
        return Err(ErrorCode::WithdrawalFeeTooHigh);
    }
    vault.withdrawal_fee = new_fee;
    Ok(())
}

} // verus!
