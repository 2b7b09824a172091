//! The admin unpauses the vault.

use crate::key::Pubkey;
use crate::vault::errors::ErrorCode;
use crate::vault::state::vault::VaultState;
use vstd::prelude::*;

verus! {

/// Resume deposits and redemptions. `NotAdmin` unless `admin` is the vault's admin.
pub fn handler(vault: &mut VaultState, admin: Pubkey) -> (r: Result<(), ErrorCode>)
    ensures
        if admin != old(vault).admin {
            r == Err::<(), ErrorCode>(ErrorCode::NotAdmin) && *final(vault) == *old(vault)
        } else {
            r == Ok::<(), ErrorCode>(()) && *final(vault) == (VaultState {
                paused: false,
                ..*old(vault)
            })
        },
{
    if !admin.same(&vault.admin) {
        return Err(ErrorCode::NotAdmin);
    }
    vault.paused = false;
    Ok(())
}

} // verus!
