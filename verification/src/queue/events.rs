//! What the queue reports about each change, built from the accounts it
//! describes so no field can be filled from the wrong source.

use crate::key::Pubkey;
use crate::queue::state::withdrawal_queue::WithdrawalQueue;
use crate::queue::state::withdrawal_request::WithdrawalRequest;
use vstd::prelude::*;

verus! {

/// A queue was created.
#[derive(Clone, Copy, Debug)]
pub struct QueueInitialized {
    pub vault: Pubkey,
    pub queue: Pubkey,
    pub deposit_mint: Pubkey,
    pub share_mint: Pubkey,
    pub escrow_shares: Pubkey,
    pub escrow_assets: Pubkey,
    pub cooldown_seconds: u64,
}

/// A queue's settings changed.
#[derive(Clone, Copy, Debug)]
pub struct QueueConfigUpdated {
    pub vault: Pubkey,
    pub queue: Pubkey,
    pub cooldown_seconds: u64,
    pub fulfillment_window_seconds: u64,
}

/// A request was opened.
#[derive(Clone, Copy, Debug)]
pub struct WithdrawalRequested {
    pub vault: Pubkey,
    pub queue: Pubkey,
    pub request: Pubkey,
    pub request_id: u64,
    pub owner: Pubkey,
    pub sequence: u64,
    pub shares: u64,
    pub recipient_token_account: Pubkey,
    pub finalizer: Pubkey,
    pub eligible_at: i64,
    pub expires_at: i64,
}

/// A request was paid out.
#[derive(Clone, Copy, Debug)]
pub struct WithdrawalFinalized {
    pub vault: Pubkey,
    pub queue: Pubkey,
    pub request: Pubkey,
    pub request_id: u64,
    pub owner: Pubkey,
    pub sequence: u64,
    pub recipient: Pubkey,
    pub finalizer: Pubkey,
    pub shares: u64,
    pub assets: u64,
}

/// A request's shares went back to its owner.
#[derive(Clone, Copy, Debug)]
pub struct WithdrawalCancelled {
    pub vault: Pubkey,
    pub queue: Pubkey,
    pub request: Pubkey,
    pub request_id: u64,
    pub owner: Pubkey,
    pub sequence: u64,
    pub by: Pubkey,
    pub shares: u64,
    pub destination: Pubkey,
}

/// A request was made eligible early.
#[derive(Clone, Copy, Debug)]
pub struct WithdrawalExpedited {
    pub vault: Pubkey,
    pub queue: Pubkey,
    pub request: Pubkey,
    pub request_id: u64,
    pub owner: Pubkey,
    pub sequence: u64,
    pub by: Pubkey,
    pub previous_eligible_at: i64,
    pub new_eligible_at: i64,
}

/// A request's owner changed its floor, recipient or finalizer.
#[derive(Clone, Copy, Debug)]
pub struct WithdrawalRequestUpdated {
    pub vault: Pubkey,
    pub queue: Pubkey,
    pub request: Pubkey,
    pub request_id: u64,
    pub owner: Pubkey,
    pub sequence: u64,
    pub recipient_token_account: Pubkey,
    pub finalizer: Pubkey,
    pub min_assets_out: u64,
}

/// The vault was returned to instant redemption.
#[derive(Clone, Copy, Debug)]
pub struct VaultReleased {
    pub vault: Pubkey,
    pub queue: Pubkey,
    pub pending_requests: u64,
    pub pending_shares: u64,
}

/// Shares no request owns were moved out of the escrow.
#[derive(Clone, Copy, Debug)]
pub struct EscrowSwept {
    pub vault: Pubkey,
    pub queue: Pubkey,
    pub shares: u64,
    pub destination: Pubkey,
    pub by: Pubkey,
}

impl QueueConfigUpdated {
    /// The settings of `queue`, at `key`.
    pub open spec fn spec_snapshot(queue: WithdrawalQueue, key: Pubkey) -> Self {
        QueueConfigUpdated {
            vault: queue.vault_state,
            queue: key,
            cooldown_seconds: queue.cooldown_seconds,
            fulfillment_window_seconds: queue.fulfillment_window_seconds,
        }
    }

    /// The queue's current settings.
    pub fn snapshot(queue: &WithdrawalQueue, key: Pubkey) -> (r: Self)
        ensures
            r == Self::spec_snapshot(*queue, key),
    {
        QueueConfigUpdated {
            vault: queue.vault_state,
            queue: key,
            cooldown_seconds: queue.cooldown_seconds,
            fulfillment_window_seconds: queue.fulfillment_window_seconds,
        }
    }
}

impl WithdrawalRequested {
    /// The opened request at `key`, of the vault at `vault`.
    pub fn snapshot(request: &WithdrawalRequest, vault: Pubkey, key: Pubkey) -> (r: Self)
        ensures
            r == (WithdrawalRequested {
                vault,
                queue: request.queue,
                request: key,
                request_id: request.request_id,
                owner: request.owner,
                sequence: request.sequence,
                shares: request.shares,
                recipient_token_account: request.recipient_token_account,
                finalizer: request.finalizer,
                eligible_at: request.eligible_at,
                expires_at: request.expires_at,
            }),
    {
        WithdrawalRequested {
            vault,
            queue: request.queue,
            request: key,
            request_id: request.request_id,
            owner: request.owner,
            sequence: request.sequence,
            shares: request.shares,
            recipient_token_account: request.recipient_token_account,
            finalizer: request.finalizer,
            eligible_at: request.eligible_at,
            expires_at: request.expires_at,
        }
    }
}

impl WithdrawalFinalized {
    /// The paid request at `key`, finalized by `finalizer` for `assets`.
    pub fn snapshot(
        request: &WithdrawalRequest,
        vault: Pubkey,
        key: Pubkey,
        finalizer: Pubkey,
        assets: u64,
    ) -> (r: Self)
        ensures
            r == (WithdrawalFinalized {
                vault,
                queue: request.queue,
                request: key,
                request_id: request.request_id,
                owner: request.owner,
                sequence: request.sequence,
                recipient: request.recipient_token_account,
                finalizer,
                shares: request.shares,
                assets,
            }),
    {
        WithdrawalFinalized {
            vault,
            queue: request.queue,
            request: key,
            request_id: request.request_id,
            owner: request.owner,
            sequence: request.sequence,
            recipient: request.recipient_token_account,
            finalizer,
            shares: request.shares,
            assets,
        }
    }
}

impl WithdrawalCancelled {
    /// The cancelled request at `key`, cancelled by `by`, its shares sent to
    /// `destination`.
    pub fn snapshot(
        request: &WithdrawalRequest,
        vault: Pubkey,
        key: Pubkey,
        by: Pubkey,
        destination: Pubkey,
    ) -> (r: Self)
        ensures
            r == (WithdrawalCancelled {
                vault,
                queue: request.queue,
                request: key,
                request_id: request.request_id,
                owner: request.owner,
                sequence: request.sequence,
                by,
                shares: request.shares,
                destination,
            }),
    {
        WithdrawalCancelled {
            vault,
            queue: request.queue,
            request: key,
            request_id: request.request_id,
            owner: request.owner,
            sequence: request.sequence,
            by,
            shares: request.shares,
            destination,
        }
    }
}

impl WithdrawalExpedited {
    /// The expedited request at `key`, by `by`, whose eligibility moved from
    /// `previous_eligible_at`.
    pub fn snapshot(
        request: &WithdrawalRequest,
        vault: Pubkey,
        key: Pubkey,
        by: Pubkey,
        previous_eligible_at: i64,
    ) -> (r: Self)
        ensures
            r == (WithdrawalExpedited {
                vault,
                queue: request.queue,
                request: key,
                request_id: request.request_id,
                owner: request.owner,
                sequence: request.sequence,
                by,
                previous_eligible_at,
                new_eligible_at: request.eligible_at,
            }),
    {
        WithdrawalExpedited {
            vault,
            queue: request.queue,
            request: key,
            request_id: request.request_id,
            owner: request.owner,
            sequence: request.sequence,
            by,
            previous_eligible_at,
            new_eligible_at: request.eligible_at,
        }
    }
}

impl WithdrawalRequestUpdated {
    /// The updated request at `key`.
    pub fn snapshot(request: &WithdrawalRequest, vault: Pubkey, key: Pubkey) -> (r: Self)
        ensures
            r == (WithdrawalRequestUpdated {
                vault,
                queue: request.queue,
                request: key,
                request_id: request.request_id,
                owner: request.owner,
                sequence: request.sequence,
                recipient_token_account: request.recipient_token_account,
                finalizer: request.finalizer,
                min_assets_out: request.min_assets_out,
            }),
    {
        WithdrawalRequestUpdated {
            vault,
            queue: request.queue,
            request: key,
            request_id: request.request_id,
            owner: request.owner,
            sequence: request.sequence,
            recipient_token_account: request.recipient_token_account,
            finalizer: request.finalizer,
            min_assets_out: request.min_assets_out,
        }
    }
}

} // verus!
