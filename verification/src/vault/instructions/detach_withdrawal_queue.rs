//! The attached queue, co-signing with the admin, detaches itself.

use crate::key::{zero_bytes, Pubkey};
use crate::vault::errors::ErrorCode;
use crate::vault::state::vault::VaultState;
use vstd::prelude::*;

verus! {

/// What a detach returns and does.
pub open spec fn detach_effect(
    old_vault: VaultState,
    new_vault: VaultState,
    admin: Pubkey,
    queue_signer: Pubkey,
    r: Result<Pubkey, ErrorCode>,
) -> bool {
    if admin != old_vault.admin {
        r == Err::<Pubkey, ErrorCode>(ErrorCode::NotAdmin) && new_vault == old_vault
    } else if old_vault.withdrawal_queue_authority@ == zero_bytes() {
        r == Err::<Pubkey, ErrorCode>(ErrorCode::WithdrawalQueueNotAttached) && new_vault
            == old_vault
    } else if queue_signer != old_vault.withdrawal_queue_authority {
        r == Err::<Pubkey, ErrorCode>(ErrorCode::WrongWithdrawalQueueSigner) && new_vault
            == old_vault
    } else {
        &&& r == Ok::<Pubkey, ErrorCode>(old_vault.withdrawal_queue_authority)
        &&& new_vault.withdrawal_queue_authority@ == zero_bytes()
        &&& new_vault == (VaultState {
            withdrawal_queue_authority: new_vault.withdrawal_queue_authority,
            ..old_vault
        })
    }
}

/// Clear `withdrawal_queue_authority`, restoring instant redemption; returns
/// the key that was stored. `NotAdmin` unless `admin` is the vault's admin,
/// then `WithdrawalQueueNotAttached` when no queue is attached, then
/// `WrongWithdrawalQueueSigner` unless `queue_signer` is the attached queue.
pub fn handler(vault: &mut VaultState, admin: Pubkey, queue_signer: Pubkey) -> (r: Result<
    Pubkey,
    ErrorCode,
>)
    ensures
        detach_effect(*old(vault), *final(vault), admin, queue_signer, r),
{
    if !admin.same(&vault.admin) {
        return Err(ErrorCode::NotAdmin);
    }
    let current = match vault.withdrawal_queue() {
        Some(q) => q,
        None => return Err(ErrorCode::WithdrawalQueueNotAttached),
    };
    if !queue_signer.same(&current) {
        return Err(ErrorCode::WrongWithdrawalQueueSigner);
    }
    vault.withdrawal_queue_authority = Pubkey::zero();
    Ok(current)
}

} // verus!
