//! The vault's admin opens or closes the queue to new requests.

use crate::key::{zero_bytes, Pubkey};
use crate::queue::auth::require_vault_admin;
use crate::queue::errors::ErrorCode;
use crate::queue::events::QueueConfigUpdated;
use crate::queue::state::withdrawal_queue::WithdrawalQueue;
use crate::vault::state::vault::VaultState;
use vstd::prelude::*;

verus! {

/// Open (`accepting`) or close the queue to new requests. Opening requires
/// the vault's gate to point at this queue (`QueueNotActiveOnVault`);
/// closing is always allowed. `VaultMismatch` and `NotVaultAdmin` first.
/// Returns the event to emit.
pub fn handler(
    queue: &mut WithdrawalQueue,
    queue_key: Pubkey,
    vault: &VaultState,
    vault_key: Pubkey,
    admin: Pubkey,
    accepting: bool,
) -> (r: Result<QueueConfigUpdated, ErrorCode>)
    ensures
        ({
            let gated_here = vault.withdrawal_queue_authority@ != zero_bytes()
                && vault.withdrawal_queue_authority == queue_key;
            let refusal = if vault_key != old(queue).vault_state {
                Some(ErrorCode::VaultMismatch)
            } else if vault.admin != admin {
                Some(ErrorCode::NotVaultAdmin)
            } else if accepting && !gated_here {
                Some(ErrorCode::QueueNotActiveOnVault)
            } else {
                None::<ErrorCode>
            };
            match refusal {
                Some(e) => r == Err::<QueueConfigUpdated, ErrorCode>(e) && *final(queue) == *old(
                    queue,
                ),
                None => {
                    &&& *final(queue) == (WithdrawalQueue {
                        accepting_requests: accepting,
                        ..*old(queue)
                    })
                    &&& r == Ok::<QueueConfigUpdated, ErrorCode>(
                        QueueConfigUpdated::spec_snapshot(*old(queue), queue_key),
                    )
                },
            }
        }),
{
    match require_vault_admin(queue, vault_key, vault, admin) {
        Ok(()) => {},
        Err(e) => return Err(e),
    }
    if accepting {
        let active = match vault.withdrawal_queue() {
            Some(q) => q.same(&queue_key),
            None => false,
        };
        if !active {
            return Err(ErrorCode::QueueNotActiveOnVault);
        }
    }
    queue.accepting_requests = accepting;
    Ok(QueueConfigUpdated::snapshot(queue, queue_key))
}

} // verus!
