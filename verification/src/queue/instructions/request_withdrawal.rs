//! A holder escrows shares and opens a request.

use crate::key::{zero_bytes, Pubkey};
use crate::queue::errors::ErrorCode;
use crate::queue::events::WithdrawalRequested;
use crate::queue::recipient::{require_valid_recipient, valid_recipient};
use crate::queue::state::withdrawal_queue::{open_request_effect, zero_words, WithdrawalQueue};
use crate::queue::state::withdrawal_request::{spec_schedule, WithdrawalRequest};
use crate::token::TokenAccountState;
use crate::vault::state::vault::VaultState;
use vstd::prelude::*;

verus! {

/// The request being opened: who opens it, where it pays, who else may
/// finalize it, and its address.
#[derive(Clone, Copy, Debug)]
pub struct NewRequest {
    pub key: Pubkey,
    pub owner: Pubkey,
    pub request_id: u64,
    pub shares: u64,
    pub recipient_token_account: Pubkey,
    /// Who may finalize besides the owner; zero for anyone.
    pub finalizer: Pubkey,
    pub bump: u8,
}

/// Why opening `new` is refused, if it is.
pub open spec fn request_refusal(
    queue: WithdrawalQueue,
    queue_key: Pubkey,
    vault: VaultState,
    vault_key: Pubkey,
    new: NewRequest,
    recipient: TokenAccountState,
    now: i64,
) -> Option<ErrorCode> {
    if vault_key != queue.vault_state {
        Some(ErrorCode::VaultMismatch)
    } else if !(vault.withdrawal_queue_authority@ != zero_bytes()
        && vault.withdrawal_queue_authority == queue_key) {
        Some(ErrorCode::QueueNotActiveOnVault)
    } else if new.shares == 0 {
        Some(ErrorCode::ZeroShares)
    } else if !valid_recipient(recipient, queue_key, queue) {
        Some(ErrorCode::InvalidRecipient)
    } else if queue.sequence + 1 > u64::MAX || queue.pending_requests + 1 > u64::MAX
        || queue.pending_shares + new.shares > u64::MAX {
        Some(ErrorCode::MathError)
    } else if spec_schedule(now, queue.cooldown_seconds, queue.fulfillment_window_seconds) is Err {
        Some(ErrorCode::MathError)
    } else {
        None
    }
}

/// Open `new` on the queue at `queue_key` at time `now`, filling the fresh
/// `request`. Requires the vault's gate to point at this queue, a non-zero
/// share count and a valid recipient (`recipient`, the account at
/// `new.recipient_token_account`). On success the queue counts the request in
/// and stamps it with the next sequence, the request carries the queue's
/// current cooldown and window, and the caller moves the shares into escrow;
/// returns the event to emit. On refusal nothing changes.
pub fn handler(
    queue: &mut WithdrawalQueue,
    queue_key: Pubkey,
    vault: &VaultState,
    vault_key: Pubkey,
    request: &mut WithdrawalRequest,
    new: NewRequest,
    recipient: &TokenAccountState,
    now: i64,
) -> (r: Result<WithdrawalRequested, ErrorCode>)
    ensures
        match request_refusal(*old(queue), queue_key, *vault, vault_key, new, *recipient, now) {
            Some(e) => r == Err::<WithdrawalRequested, ErrorCode>(e) && *final(queue) == *old(queue)
                && *final(request) == *old(request),
            None => {
                let t = spec_schedule(
                    now,
                    old(queue).cooldown_seconds,
                    old(queue).fulfillment_window_seconds,
                )->Ok_0;
                &&& open_request_effect(
                    *old(queue),
                    *final(queue),
                    new.shares,
                    Ok((old(queue).sequence + 1) as u64),
                )
                &&& *final(request) == (WithdrawalRequest {
                    queue: queue_key,
                    owner: new.owner,
                    recipient_token_account: new.recipient_token_account,
                    finalizer: new.finalizer,
                    shares: new.shares,
                    min_assets_out: 0,
                    request_id: new.request_id,
                    sequence: (old(queue).sequence + 1) as u64,
                    requested_at: t.0,
                    scheduled_eligible_at: t.1,
                    eligible_at: t.2,
                    expires_at: t.3,
                    bump: new.bump,
                    padding: final(request).padding,
                })
                &&& final(request).padding@ == zero_words(8)
                &&& r == Ok::<WithdrawalRequested, ErrorCode>(
                    WithdrawalRequested {
                        vault: old(queue).vault_state,
                        queue: queue_key,
                        request: new.key,
                        request_id: new.request_id,
                        owner: new.owner,
                        sequence: (old(queue).sequence + 1) as u64,
                        shares: new.shares,
                        recipient_token_account: new.recipient_token_account,
                        finalizer: new.finalizer,
                        eligible_at: t.2,
                        expires_at: t.3,
                    },
                )
            },
        },
{
    if !vault_key.same(&queue.vault_state) {
        return Err(ErrorCode::VaultMismatch);
    }
    let active = match vault.withdrawal_queue() {
        Some(q) => q.same(&queue_key),
        None => false,
    };
    if !active {
        return Err(ErrorCode::QueueNotActiveOnVault);
    }
    if new.shares == 0 {
        return Err(ErrorCode::ZeroShares);
    }
    match require_valid_recipient(recipient, queue_key, queue) {
        Ok(()) => {},
        Err(e) => return Err(e),
    }
    let mut counted = *queue;
    let sequence = match counted.open_request(new.shares) {
        Ok(s) => s,
        Err(e) => return Err(e),
    };
    let mut opened = *request;
    match opened.open(
        queue_key,
        new.owner,
        new.recipient_token_account,
        new.finalizer,
        new.shares,
        new.request_id,
        sequence,
        new.bump,
        now,
        queue.cooldown_seconds,
        queue.fulfillment_window_seconds,
    ) {
        Ok(()) => {},
        Err(e) => return Err(e),
    }
    *queue = counted;
    *request = opened;
    Ok(WithdrawalRequested::snapshot(request, queue.vault_state, new.key))
}

} // verus!
