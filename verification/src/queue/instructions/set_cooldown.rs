//! The vault's admin sets the cooldown for new requests.

use crate::key::Pubkey;
use crate::queue::auth::require_vault_admin;
use crate::queue::errors::ErrorCode;
use crate::queue::events::QueueConfigUpdated;
use crate::queue::state::withdrawal_queue::{WithdrawalQueue, MAX_COOLDOWN_SECONDS};
use crate::vault::state::vault::VaultState;
use vstd::prelude::*;

verus! {

/// Set the cooldown to `seconds`; requests already open keep theirs.
/// `VaultMismatch`, `NotVaultAdmin`, then `CooldownOutOfBounds` over 30 days.
/// Returns the event to emit.
pub fn handler(
    queue: &mut WithdrawalQueue,
    queue_key: Pubkey,
    vault: &VaultState,
    vault_key: Pubkey,
    admin: Pubkey,
    seconds: u64,
) -> (r: Result<QueueConfigUpdated, ErrorCode>)
    ensures
        ({
            let refusal = if vault_key != old(queue).vault_state {
                Some(ErrorCode::VaultMismatch)
            } else if vault.admin != admin {
                Some(ErrorCode::NotVaultAdmin)
            } else if seconds > MAX_COOLDOWN_SECONDS {
                Some(ErrorCode::CooldownOutOfBounds)
            } else {
                None::<ErrorCode>
            };
            match refusal {
                Some(e) => r == Err::<QueueConfigUpdated, ErrorCode>(e) && *final(queue) == *old(
                    queue,
                ),
                None => {
                    &&& *final(queue) == (WithdrawalQueue { cooldown_seconds: seconds, ..*old(queue) })
                    &&& r == Ok::<QueueConfigUpdated, ErrorCode>(
                        QueueConfigUpdated {
                            vault: old(queue).vault_state,
                            queue: queue_key,
                            cooldown_seconds: seconds,
                            fulfillment_window_seconds: old(queue).fulfillment_window_seconds,
                        },
                    )
                },
            }
        }),
{
    match require_vault_admin(queue, vault_key, vault, admin) {
        Ok(()) => {},
        Err(e) => return Err(e),
    }
    match queue.set_cooldown(seconds) {
        Ok(()) => {},
        Err(e) => return Err(e),
    }
    Ok(QueueConfigUpdated::snapshot(queue, queue_key))
}

} // verus!
