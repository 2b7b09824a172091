//! The vault's admin sets the fulfillment window for new requests.

use crate::key::Pubkey;
use crate::queue::auth::require_vault_admin;
use crate::queue::errors::ErrorCode;
use crate::queue::events::QueueConfigUpdated;
use crate::queue::state::withdrawal_queue::{valid_window, WithdrawalQueue};
use crate::vault::state::vault::VaultState;
use vstd::prelude::*;

verus! {

/// Set the fulfillment window to `seconds`: zero disables expiry, otherwise
/// one to 90 days. `VaultMismatch`, `NotVaultAdmin`, then
/// `FulfillmentWindowOutOfBounds`. Returns the event to emit.
pub fn handler(
    queue: &mut WithdrawalQueue,
    queue_key: Pubkey,
    vault: &VaultState,
    vault_key: Pubkey,
    admin: Pubkey,
    seconds: u64,
) -> (r: Result<QueueConfigUpdated, ErrorCode>)
    ensures
        ({
            let refusal = if vault_key != old(queue).vault_state {
                Some(ErrorCode::VaultMismatch)
            } else if vault.admin != admin {
                Some(ErrorCode::NotVaultAdmin)
            } else if !valid_window(seconds) {
                Some(ErrorCode::FulfillmentWindowOutOfBounds)
            } else {
                None::<ErrorCode>
            };
            match refusal {
                Some(e) => r == Err::<QueueConfigUpdated, ErrorCode>(e) && *final(queue) == *old(
                    queue,
                ),
                None => {
                    &&& *final(queue) == (WithdrawalQueue {
                        fulfillment_window_seconds: seconds,
                        ..*old(queue)
                    })
                    &&& r == Ok::<QueueConfigUpdated, ErrorCode>(
                        QueueConfigUpdated {
                            vault: old(queue).vault_state,
                            queue: queue_key,
                            cooldown_seconds: old(queue).cooldown_seconds,
                            fulfillment_window_seconds: seconds,
                        },
                    )
                },
            }
        }),
{
    match require_vault_admin(queue, vault_key, vault, admin) {
        Ok(()) => {},
        Err(e) => return Err(e),
    }
    match queue.set_fulfillment_window(seconds) {
        Ok(()) => {},
        Err(e) => return Err(e),
    }
    Ok(QueueConfigUpdated::snapshot(queue, queue_key))
}

} // verus!
