//! The vault's admin returns the vault to instant redemption.
//!
//! The queue co-signs the vault's detach, which the caller performs; the
//! vault's own checks there decide whether a queue is attached and is this
//! one. Pending requests survive and finalize or cancel afterwards.

use crate::key::Pubkey;
use crate::queue::auth::require_vault_admin;
use crate::queue::errors::ErrorCode;
use crate::queue::events::VaultReleased;
use crate::queue::state::withdrawal_queue::WithdrawalQueue;
use crate::vault::state::vault::VaultState;
use vstd::prelude::*;

verus! {

/// Release the vault at `now`: `VaultMismatch`, then `NotVaultAdmin`. On
/// success the queue records `now` as its latest release, which starts the
/// admin-cancel delay, and the event to emit is returned.
pub fn handler(
    queue: &mut WithdrawalQueue,
    queue_key: Pubkey,
    vault: &VaultState,
    vault_key: Pubkey,
    admin: Pubkey,
    now: i64,
) -> (r: Result<VaultReleased, ErrorCode>)
    ensures
        vault_key != old(queue).vault_state ==> r == Err::<VaultReleased, ErrorCode>(
            ErrorCode::VaultMismatch,
        ) && *final(queue) == *old(queue),
        vault_key == old(queue).vault_state && vault.admin != admin ==> r == Err::<
            VaultReleased,
            ErrorCode,
        >(ErrorCode::NotVaultAdmin) && *final(queue) == *old(queue),
        vault_key == old(queue).vault_state && vault.admin == admin ==> {
            &&& *final(queue) == (WithdrawalQueue { released_at: now, ..*old(queue) })
            &&& r == Ok::<VaultReleased, ErrorCode>(
                VaultReleased {
                    vault: old(queue).vault_state,
                    queue: queue_key,
                    pending_requests: old(queue).pending_requests,
                    pending_shares: old(queue).pending_shares,
                },
            )
        },
{
    match require_vault_admin(queue, vault_key, vault, admin) {
        Ok(()) => {},
        Err(e) => return Err(e),
    }
    queue.released_at = now;
    Ok(
        VaultReleased {
            vault: queue.vault_state,
            queue: queue_key,
            pending_requests: queue.pending_requests,
            pending_shares: queue.pending_shares,
        },
    )
}

} // verus!
