//! The admin attaches this vault's withdrawal queue.

use crate::account::AccountFacts;
use crate::key::{zero_bytes, Pubkey};
use crate::vault::errors::ErrorCode;
use crate::vault::state::vault::{
    spec_withdrawal_queue_pda, spec_withdrawal_queue_program_id, withdrawal_queue_pda,
    withdrawal_queue_program_id, VaultState,
};
use vstd::prelude::*;

verus! {

/// Why attaching `queue` is refused, if it is: it must be this vault's queue
/// address, never the zero key, owned by the queue program and initialized.
pub open spec fn attach_refusal(vault: VaultState, admin: Pubkey, vault_key: Pubkey, queue: AccountFacts) -> Option<
    ErrorCode,
> {
    if admin != vault.admin {
        Some(ErrorCode::NotAdmin)
    } else if vault.withdrawal_queue_authority@ != zero_bytes() {
        Some(ErrorCode::WithdrawalQueueAlreadyAttached)
    } else if spec_withdrawal_queue_pda(vault_key@) != Some(queue.key@) {
        Some(ErrorCode::InvalidWithdrawalQueueAuthority)
    } else if queue.key@ == zero_bytes() {
        Some(ErrorCode::InvalidWithdrawalQueueAuthority)
    } else if queue.owner@ != spec_withdrawal_queue_program_id() {
        Some(ErrorCode::InvalidWithdrawalQueueAuthority)
    } else if queue.data_is_empty {
        Some(ErrorCode::InvalidWithdrawalQueueAuthority)
    } else {
        None
    }
}

/// Store `queue` as the vault's `withdrawal_queue_authority`, after which only
/// that queue may redeem. On refusal nothing changes.
pub fn handler(vault: &mut VaultState, admin: Pubkey, vault_key: Pubkey, queue: &AccountFacts) -> (r:
    Result<(), ErrorCode>)
    ensures
        match attach_refusal(*old(vault), admin, vault_key, *queue) {
            Some(e) => r == Err::<(), ErrorCode>(e) && *final(vault) == *old(vault),
            None => r == Ok::<(), ErrorCode>(()) && *final(vault) == (VaultState {
                withdrawal_queue_authority: queue.key,
                ..*old(vault)
            }),
        },
{
    if !admin.same(&vault.admin) {
        return Err(ErrorCode::NotAdmin);
    }
    if vault.withdrawal_queue().is_some() {
        return Err(ErrorCode::WithdrawalQueueAlreadyAttached);
    }
    match withdrawal_queue_pda(&vault_key) {
        Some(expected) => {
            if !queue.key.same(&expected) {
                return Err(ErrorCode::InvalidWithdrawalQueueAuthority);
            }
        },
        None => return Err(ErrorCode::InvalidWithdrawalQueueAuthority),
    }
    if queue.key.is_zero() {
        return Err(ErrorCode::InvalidWithdrawalQueueAuthority);
    }
    let program = withdrawal_queue_program_id();
    if !queue.owner.same(&program) {
        return Err(ErrorCode::InvalidWithdrawalQueueAuthority);
    }
    if queue.data_is_empty {
        return Err(ErrorCode::InvalidWithdrawalQueueAuthority);
    }
    vault.withdrawal_queue_authority = queue.key;
    Ok(())
}

} // verus!
