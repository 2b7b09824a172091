//! The vault's admin returns a request's shares to its owner, once the vault
//! has been released for a full delay.

use crate::key::{zero_bytes, Pubkey};
use crate::queue::errors::ErrorCode;
use crate::queue::state::withdrawal_queue::{
    close_request_effect, WithdrawalQueue, ADMIN_CANCEL_DELAY_SECONDS,
};
use crate::queue::state::withdrawal_request::WithdrawalRequest;
use crate::queue::auth::require_vault_admin;
use crate::queue::instructions::cancel_withdrawal::return_shares;
use crate::vault::state::vault::VaultState;
use vstd::prelude::*;

verus! {

/// Why the admin's cancel is refused before settlement, if it is.
pub open spec fn admin_cancel_refusal(
    queue: WithdrawalQueue,
    queue_key: Pubkey,
    vault: VaultState,
    vault_key: Pubkey,
    admin: Pubkey,
    request: WithdrawalRequest,
    expected_sequence: u64,
    now: i64,
) -> Option<ErrorCode> {
    if vault_key != queue.vault_state {
        Some(ErrorCode::VaultMismatch)
    } else if vault.admin != admin {
        Some(ErrorCode::NotVaultAdmin)
    } else if vault.withdrawal_queue_authority@ != zero_bytes() && vault.withdrawal_queue_authority
        == queue_key {
        Some(ErrorCode::QueueStillAttached)
    } else if queue.released_at == 0 {
        Some(ErrorCode::AdminCancelTooEarly)
    } else if queue.released_at + ADMIN_CANCEL_DELAY_SECONDS > i64::MAX {
        Some(ErrorCode::MathError)
    } else if now < queue.released_at + ADMIN_CANCEL_DELAY_SECONDS {
        Some(ErrorCode::AdminCancelTooEarly)
    } else if request.sequence != expected_sequence {
        Some(ErrorCode::StaleRequestSequence)
    } else {
        None
    }
}

/// Cancel `request` on the admin's authority: the vault must be released from
/// this queue, for at least [`ADMIN_CANCEL_DELAY_SECONDS`] since the latest
/// release, and the stamp must match. Then the settlement of
/// [`return_shares`]; returns the shares the caller sends back to the owner.
pub fn handler(
    queue: &mut WithdrawalQueue,
    queue_key: Pubkey,
    vault: &VaultState,
    vault_key: Pubkey,
    admin: Pubkey,
    request: &WithdrawalRequest,
    expected_sequence: u64,
    now: i64,
) -> (r: Result<u64, ErrorCode>)
    ensures
        match admin_cancel_refusal(
            *old(queue),
            queue_key,
            *vault,
            vault_key,
            admin,
            *request,
            expected_sequence,
            now,
        ) {
            Some(e) => r == Err::<u64, ErrorCode>(e) && *final(queue) == *old(queue),
            None => close_request_effect(
                *old(queue),
                *final(queue),
                request.shares,
                match r {
                    Ok(_) => Ok(()),
                    Err(e) => Err(e),
                },
            ) && (r is Ok ==> r->Ok_0 == request.shares),
        },
{
    match require_vault_admin(queue, vault_key, vault, admin) {
        Ok(()) => {},
        Err(e) => return Err(e),
    }
    let attached_here = match vault.withdrawal_queue() {
        Some(q) => q.same(&queue_key),
        None => false,
    };
    if attached_here {
        return Err(ErrorCode::QueueStillAttached);
    }
    let elapsed = match queue.admin_cancel_delay_elapsed(now) {
        Ok(b) => b,
        Err(e) => return Err(e),
    };
    if !elapsed {
        return Err(ErrorCode::AdminCancelTooEarly);
    }
    if request.sequence != expected_sequence {
        return Err(ErrorCode::StaleRequestSequence);
    }
    return_shares(queue, request)
}

} // verus!
