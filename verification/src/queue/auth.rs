//! Admin authorization, borrowed from the vault rather than stored here.

use crate::key::Pubkey;
use crate::queue::errors::ErrorCode;
use crate::queue::state::withdrawal_queue::WithdrawalQueue;
use crate::vault::state::vault::VaultState;
use vstd::prelude::*;

verus! {

/// Require `admin` to be the current admin of the vault this queue serves:
/// `VaultMismatch` unless `vault_key` is the queue's vault, then
/// `NotVaultAdmin` unless `admin` is that vault's admin.
pub fn require_vault_admin(
    queue: &WithdrawalQueue,
    vault_key: Pubkey,
    vault: &VaultState,
    admin: Pubkey,
) -> (r: Result<(), ErrorCode>)
    ensures
        r == if vault_key != queue.vault_state {
            Err::<(), ErrorCode>(ErrorCode::VaultMismatch)
        } else if vault.admin != admin {
            Err::<(), ErrorCode>(ErrorCode::NotVaultAdmin)
        } else {
            Ok(())
        },
{
    if !vault_key.same(&queue.vault_state) {
        return Err(ErrorCode::VaultMismatch);
    }
    if !vault.admin.same(&admin) {
        return Err(ErrorCode::NotVaultAdmin);
    }
    Ok(())
}

/// As [`require_vault_admin`], also accepting the vault's operator.
pub fn require_vault_admin_or_operator(
    queue: &WithdrawalQueue,
    vault_key: Pubkey,
    vault: &VaultState,
    authority: Pubkey,
) -> (r: Result<(), ErrorCode>)
    ensures
        r == if vault_key != queue.vault_state {
            Err::<(), ErrorCode>(ErrorCode::VaultMismatch)
        } else if vault.admin != authority && vault.operator != authority {
            Err::<(), ErrorCode>(ErrorCode::NotVaultAdmin)
        } else {
            Ok(())
        },
{
    if !vault_key.same(&queue.vault_state) {
        return Err(ErrorCode::VaultMismatch);
    }
    if !vault.admin.same(&authority) && !vault.operator.same(&authority) {
        return Err(ErrorCode::NotVaultAdmin);
    }
    Ok(())
}

} // verus!
