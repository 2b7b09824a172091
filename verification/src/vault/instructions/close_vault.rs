//! The admin closes an empty vault.

use crate::key::Pubkey;
use crate::vault::errors::ErrorCode;
use crate::vault::state::vault::VaultState;
use vstd::prelude::*;

verus! {

/// Whether the vault may close: `NotAdmin` unless `admin` is its admin, then
/// `VaultNotEmpty` while shares are outstanding or the reserve holds a
/// balance. On success the caller closes the reserve, revokes the share mint's
/// authority and closes the state account.
pub fn handler(vault: &VaultState, admin: Pubkey, share_supply: u64, reserve_balance: u64) -> (r:
    Result<(), ErrorCode>)
    ensures
        r == if admin != vault.admin {
            Err::<(), ErrorCode>(ErrorCode::NotAdmin)
        } else if share_supply != 0 || reserve_balance != 0 {
            Err::<(), ErrorCode>(ErrorCode::VaultNotEmpty)
        } else {
            Ok(())
        },
{
    if !admin.same(&vault.admin) {
        return Err(ErrorCode::NotAdmin);
    }
    if share_supply != 0 {
        return Err(ErrorCode::VaultNotEmpty);
    }
    if reserve_balance != 0 {
        return Err(ErrorCode::VaultNotEmpty);
    }
    Ok(())
}

} // verus!
