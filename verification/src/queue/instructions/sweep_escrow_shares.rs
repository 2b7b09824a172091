//! The vault's admin moves shares that no request owns out of the escrow.

use crate::key::Pubkey;
use crate::queue::auth::require_vault_admin;
use crate::queue::errors::ErrorCode;
use crate::queue::state::withdrawal_queue::WithdrawalQueue;
use crate::token::TokenAccountState;
use crate::vault::state::vault::VaultState;
use vstd::prelude::*;

verus! {

/// The shares to sweep from an escrow holding `escrow_balance`: everything
/// beyond what pending requests account for. `VaultMismatch`; then
/// `InvalidSweepDestination` when the destination belongs to the queue or the
/// vault, where nothing could move the shares out again; then
/// `NotVaultAdmin`; `MathError` when the escrow holds less than is pending;
/// `NothingToSweep` when nothing is stray. Pending requests' shares are never
/// touched.
pub fn handler(
    queue: &WithdrawalQueue,
    queue_key: Pubkey,
    vault: &VaultState,
    vault_key: Pubkey,
    admin: Pubkey,
    escrow_balance: u64,
    destination: &TokenAccountState,
) -> (r: Result<u64, ErrorCode>)
    ensures
        r == if vault_key != queue.vault_state {
            Err::<u64, ErrorCode>(ErrorCode::VaultMismatch)
        } else if destination.owner == queue_key || destination.owner == queue.vault_state {
            Err::<u64, ErrorCode>(ErrorCode::InvalidSweepDestination)
        } else if vault.admin != admin {
            Err::<u64, ErrorCode>(ErrorCode::NotVaultAdmin)
        } else if escrow_balance < queue.pending_shares {
            Err::<u64, ErrorCode>(ErrorCode::MathError)
        } else if escrow_balance == queue.pending_shares {
            Err::<u64, ErrorCode>(ErrorCode::NothingToSweep)
        } else {
            Ok((escrow_balance - queue.pending_shares) as u64)
        },
{
    if !vault_key.same(&queue.vault_state) {
        return Err(ErrorCode::VaultMismatch);
    }
    if destination.owner.same(&queue_key) {
        return Err(ErrorCode::InvalidSweepDestination);
    }
    if destination.owner.same(&queue.vault_state) {
        return Err(ErrorCode::InvalidSweepDestination);
    }
    match require_vault_admin(queue, vault_key, vault, admin) {
        Ok(()) => {},
        Err(e) => return Err(e),
    }
    let stray = match escrow_balance.checked_sub(queue.pending_shares) {
        Some(v) => v,
        None => return Err(ErrorCode::MathError),
    };
    if stray == 0 {
        return Err(ErrorCode::NothingToSweep);
    }
    Ok(stray)
}

} // verus!
