//! The admin removes an operator destination that owes nothing.

use crate::key::Pubkey;
use crate::vault::errors::ErrorCode;
use crate::vault::state::subaccount::Subaccount;
use crate::vault::state::vault::VaultState;
use vstd::prelude::*;

verus! {

/// Deregister `subaccount`. `InvalidSubaccount` unless it belongs to the vault
/// at `vault_key`, then `NotAdmin`, then `SubaccountNotEmpty` while it owes
/// principal. On success the vault counts one registration fewer (never below
/// zero) and the caller closes the entry.
pub fn handler(vault: &mut VaultState, admin: Pubkey, vault_key: Pubkey, subaccount: &Subaccount) -> (r:
    Result<(), ErrorCode>)
    ensures
        if subaccount.vault_state != vault_key {
            r == Err::<(), ErrorCode>(ErrorCode::InvalidSubaccount) && *final(vault) == *old(vault)
        } else if admin != old(vault).admin {
            r == Err::<(), ErrorCode>(ErrorCode::NotAdmin) && *final(vault) == *old(vault)
        } else if subaccount.principal != 0 {
            r == Err::<(), ErrorCode>(ErrorCode::SubaccountNotEmpty) && *final(vault) == *old(
                vault,
            )
        } else {
            r == Ok::<(), ErrorCode>(()) && *final(vault) == (VaultState {
                subaccount_count: if old(vault).subaccount_count == 0 {
                    0
                } else {
                    (old(vault).subaccount_count - 1) as u64
                },
                ..*old(vault)
            })
        },
{
    if !subaccount.vault_state.same(&vault_key) {
        return Err(ErrorCode::InvalidSubaccount);
    }
    if !admin.same(&vault.admin) {
        return Err(ErrorCode::NotAdmin);
    }
    if subaccount.principal != 0 {
        return Err(ErrorCode::SubaccountNotEmpty);
    }
    vault.subaccount_count = vault.subaccount_count.saturating_sub(1);
    Ok(())
}

} // verus!
