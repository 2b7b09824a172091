//! The admin attaches, detaches or re-sets the withdrawal queue in one call.

use crate::account::AccountFacts;
use crate::key::{zero_bytes, Pubkey};
use crate::vault::errors::ErrorCode;
use crate::vault::state::vault::{
    spec_withdrawal_queue_pda, spec_withdrawal_queue_program_id, withdrawal_queue_pda,
    withdrawal_queue_program_id, VaultState,
};
use vstd::prelude::*;

verus! {

/// Why storing `new_authority` is refused, if it is. While a queue is
/// attached it must co-sign (`WithdrawalQueueNotDrained`). The zero key is
/// accepted only without a `new_queue` account; any other key must be the
/// `new_queue` account itself, this vault's queue address, owned by the queue
/// program and initialized.
pub open spec fn set_queue_refusal(
    vault: VaultState,
    admin: Pubkey,
    vault_key: Pubkey,
    new_authority: Pubkey,
    new_queue: Option<AccountFacts>,
    current_queue: Option<Pubkey>,
) -> Option<ErrorCode> {
    let attached = vault.withdrawal_queue_authority@ != zero_bytes();
    if admin != vault.admin {
        Some(ErrorCode::NotAdmin)
    } else if attached && current_queue != Some(vault.withdrawal_queue_authority) {
        Some(ErrorCode::WithdrawalQueueNotDrained)
    } else if new_authority@ == zero_bytes() {
        if new_queue is Some {
            Some(ErrorCode::InvalidWithdrawalQueueAuthority)
        } else {
            None
        }
    } else if new_queue is None {
        Some(ErrorCode::InvalidWithdrawalQueueAuthority)
    } else if new_queue->0.key != new_authority {
        Some(ErrorCode::InvalidWithdrawalQueueAuthority)
    } else if spec_withdrawal_queue_pda(vault_key@) != Some(new_authority@) {
        Some(ErrorCode::InvalidWithdrawalQueueAuthority)
    } else if new_queue->0.owner@ != spec_withdrawal_queue_program_id() {
        Some(ErrorCode::InvalidWithdrawalQueueAuthority)
    } else if new_queue->0.data_is_empty {
        Some(ErrorCode::InvalidWithdrawalQueueAuthority)
    } else {
        None
    }
}

/// Store `new_authority` as the vault's `withdrawal_queue_authority`; returns
/// the previous value. `current_queue` is the signing queue, when one signed.
/// Only the zero key and this vault's queue address are ever storable. On
/// refusal nothing changes.
pub fn handler(
    vault: &mut VaultState,
    admin: Pubkey,
    vault_key: Pubkey,
    new_authority: Pubkey,
    new_queue: Option<AccountFacts>,
    current_queue: Option<Pubkey>,
) -> (r: Result<Pubkey, ErrorCode>)
    ensures
        match set_queue_refusal(
            *old(vault),
            admin,
            vault_key,
            new_authority,
            new_queue,
            current_queue,
        ) {
            Some(e) => r == Err::<Pubkey, ErrorCode>(e) && *final(vault) == *old(vault),
            None => r == Ok::<Pubkey, ErrorCode>(old(vault).withdrawal_queue_authority)
                && *final(vault) == (VaultState {
                withdrawal_queue_authority: new_authority,
                ..*old(vault)
            }),
        },
{
    if !admin.same(&vault.admin) {
        return Err(ErrorCode::NotAdmin);
    }
    let previous = vault.withdrawal_queue_authority;
    match vault.withdrawal_queue() {
        Some(current) => match current_queue {
            Some(co_signer) => {
                if !co_signer.same(&current) {
                    return Err(ErrorCode::WithdrawalQueueNotDrained);
                }
            },
            None => return Err(ErrorCode::WithdrawalQueueNotDrained),
        },
        None => {},
    }
    if new_authority.is_zero() {
        if new_queue.is_some() {
            return Err(ErrorCode::InvalidWithdrawalQueueAuthority);
        }
    } else {
        let queue = match new_queue {
            Some(q) => q,
            None => return Err(ErrorCode::InvalidWithdrawalQueueAuthority),
        };
        if !queue.key.same(&new_authority) {
            return Err(ErrorCode::InvalidWithdrawalQueueAuthority);
        }
        match withdrawal_queue_pda(&vault_key) {
            Some(expected) => {
                if !new_authority.same(&expected) {
                    return Err(ErrorCode::InvalidWithdrawalQueueAuthority);
                }
            },
            None => return Err(ErrorCode::InvalidWithdrawalQueueAuthority),
        }
        let program = withdrawal_queue_program_id();
        if !queue.owner.same(&program) {
            return Err(ErrorCode::InvalidWithdrawalQueueAuthority);
        }
        if queue.data_is_empty {
            return Err(ErrorCode::InvalidWithdrawalQueueAuthority);
        }
    }
    vault.withdrawal_queue_authority = new_authority;
    Ok(previous)
}

} // verus!
