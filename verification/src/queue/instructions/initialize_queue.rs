//! The vault's admin creates its withdrawal queue.

use crate::key::Pubkey;
use crate::queue::errors::ErrorCode;
use crate::queue::events::QueueInitialized;
use crate::queue::mint_policy::{require_supported_deposit_mint, supported_deposit_mint};
use crate::queue::state::withdrawal_queue::{zero_words, WithdrawalQueue, MAX_COOLDOWN_SECONDS};
use crate::vault::state::vault::VaultState;
use vstd::prelude::*;

verus! {

/// The escrow accounts a new queue holds, both its own associated accounts.
#[derive(Clone, Copy, Debug)]
pub struct EscrowAccounts {
    pub escrow_shares: Pubkey,
    pub escrow_assets: Pubkey,
}

/// Fill the freshly created `queue` at `queue_key` for the vault at
/// `vault_key`. `NotVaultAdmin` unless `admin` is the vault's admin, then
/// `UnsupportedDepositMint` unless the vault's deposit mint (owned by
/// `deposit_mint_owner`, holding `deposit_mint_data`) passes the mint policy,
/// then `CooldownOutOfBounds` over 30 days. Returns the event to emit.
pub fn handler(
    vault: &VaultState,
    vault_key: Pubkey,
    admin: Pubkey,
    deposit_mint_owner: &Pubkey,
    deposit_mint_data: &[u8],
    queue: &mut WithdrawalQueue,
    queue_key: Pubkey,
    escrows: EscrowAccounts,
    bump: u8,
    cooldown_seconds: u64,
) -> (r: Result<QueueInitialized, ErrorCode>)
    ensures
        admin != vault.admin ==> r == Err::<QueueInitialized, ErrorCode>(ErrorCode::NotVaultAdmin),
        admin == vault.admin && !supported_deposit_mint(*deposit_mint_owner, deposit_mint_data@)
            ==> r == Err::<QueueInitialized, ErrorCode>(ErrorCode::UnsupportedDepositMint),
        admin == vault.admin && supported_deposit_mint(*deposit_mint_owner, deposit_mint_data@)
            && cooldown_seconds > MAX_COOLDOWN_SECONDS ==> r == Err::<QueueInitialized, ErrorCode>(
            ErrorCode::CooldownOutOfBounds,
        ),
        admin == vault.admin && supported_deposit_mint(*deposit_mint_owner, deposit_mint_data@)
            && cooldown_seconds <= MAX_COOLDOWN_SECONDS ==> r is Ok,
        r is Ok ==> {
            &&& *final(queue) == (WithdrawalQueue {
                vault_state: vault_key,
                deposit_mint: vault.deposit_mint,
                share_mint: vault.share_mint,
                escrow_shares: escrows.escrow_shares,
                escrow_assets: escrows.escrow_assets,
                cooldown_seconds,
                fulfillment_window_seconds: 0,
                sequence: 0,
                pending_requests: 0,
                pending_shares: 0,
                bump,
                released_at: 0,
                padding: final(queue).padding,
                ..*old(queue)
            })
            &&& final(queue).padding@ == zero_words(19)
            &&& r->Ok_0 == (QueueInitialized {
                vault: vault_key,
                queue: queue_key,
                deposit_mint: vault.deposit_mint,
                share_mint: vault.share_mint,
                escrow_shares: escrows.escrow_shares,
                escrow_assets: escrows.escrow_assets,
                cooldown_seconds,
            })
        },
        r is Err ==> *final(queue) == *old(queue),
{
    if !admin.same(&vault.admin) {
        return Err(ErrorCode::NotVaultAdmin);
    }
    match require_supported_deposit_mint(deposit_mint_owner, deposit_mint_data) {
        Ok(()) => {},
        Err(e) => return Err(e),
    }
    if cooldown_seconds > MAX_COOLDOWN_SECONDS {
        return Err(ErrorCode::CooldownOutOfBounds);
    }
    match queue.init(
        vault_key,
        vault.deposit_mint,
        vault.share_mint,
        escrows.escrow_shares,
        escrows.escrow_assets,
        bump,
        cooldown_seconds,
    ) {
        Ok(()) => {},
        Err(e) => return Err(e),
    }
    Ok(
        QueueInitialized {
            vault: queue.vault_state,
            queue: queue_key,
            deposit_mint: queue.deposit_mint,
            share_mint: queue.share_mint,
            escrow_shares: queue.escrow_shares,
            escrow_assets: queue.escrow_assets,
            cooldown_seconds: queue.cooldown_seconds,
        },
    )
}

} // verus!
