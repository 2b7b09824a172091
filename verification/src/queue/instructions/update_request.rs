//! The owner adjusts a pending request: its floor, where it pays, and who may
//! finalize it. Shares and timestamps never change here.

use crate::key::Pubkey;
use crate::queue::errors::ErrorCode;
use crate::queue::events::WithdrawalRequestUpdated;
use crate::queue::recipient::{require_valid_recipient, valid_recipient};
use crate::queue::state::withdrawal_queue::WithdrawalQueue;
use crate::queue::state::withdrawal_request::WithdrawalRequest;
use crate::token::TokenAccountState;
use vstd::prelude::*;

verus! {

/// A new recipient: the account's address and what it holds.
#[derive(Clone, Copy, Debug)]
pub struct NewRecipient {
    pub key: Pubkey,
    pub account: TokenAccountState,
}

/// Why the update is refused, if it is.
pub open spec fn update_refusal(
    queue: WithdrawalQueue,
    queue_key: Pubkey,
    request: WithdrawalRequest,
    owner: Pubkey,
    expected_sequence: u64,
    now: i64,
    min_assets_out: Option<u64>,
    finalizer: Option<Pubkey>,
    new_recipient: Option<NewRecipient>,
) -> Option<ErrorCode> {
    if owner != request.owner {
        Some(ErrorCode::NotRequestOwner)
    } else if request.sequence != expected_sequence {
        Some(ErrorCode::StaleRequestSequence)
    } else if request.expires_at != 0 && now >= request.expires_at {
        Some(ErrorCode::RequestExpired)
    } else if min_assets_out is None && finalizer is None && new_recipient is None {
        Some(ErrorCode::NothingToUpdate)
    } else if new_recipient is Some && !valid_recipient(new_recipient->0.account, queue_key, queue) {
        Some(ErrorCode::InvalidRecipient)
    } else {
        None
    }
}

/// Apply the owner's changes to `request` at `now`: each `Some` replaces its
/// field, each `None` leaves it. The stamp must match, the request must not
/// have expired, at least one change must be given (`NothingToUpdate`), and a
/// new recipient must be valid. Returns the event to emit; on refusal nothing
/// changes.
pub fn handler(
    queue: &WithdrawalQueue,
    queue_key: Pubkey,
    request: &mut WithdrawalRequest,
    request_key: Pubkey,
    owner: Pubkey,
    expected_sequence: u64,
    now: i64,
    min_assets_out: Option<u64>,
    finalizer: Option<Pubkey>,
    new_recipient: Option<NewRecipient>,
) -> (r: Result<WithdrawalRequestUpdated, ErrorCode>)
    ensures
        match update_refusal(
            *queue,
            queue_key,
            *old(request),
            owner,
            expected_sequence,
            now,
            min_assets_out,
            finalizer,
            new_recipient,
        ) {
            Some(e) => r == Err::<WithdrawalRequestUpdated, ErrorCode>(e) && *final(request)
                == *old(request),
            None => {
                &&& *final(request) == (WithdrawalRequest {
                    recipient_token_account: match new_recipient {
                        Some(n) => n.key,
                        None => old(request).recipient_token_account,
                    },
                    min_assets_out: match min_assets_out {
                        Some(m) => m,
                        None => old(request).min_assets_out,
                    },
                    finalizer: match finalizer {
                        Some(f) => f,
                        None => old(request).finalizer,
                    },
                    ..*old(request)
                })
                &&& r == Ok::<WithdrawalRequestUpdated, ErrorCode>(
                    WithdrawalRequestUpdated {
                        vault: queue.vault_state,
                        queue: final(request).queue,
                        request: request_key,
                        request_id: final(request).request_id,
                        owner: final(request).owner,
                        sequence: final(request).sequence,
                        recipient_token_account: final(request).recipient_token_account,
                        finalizer: final(request).finalizer,
                        min_assets_out: final(request).min_assets_out,
                    },
                )
            },
        },
{
    if !owner.same(&request.owner) {
        return Err(ErrorCode::NotRequestOwner);
    }
    if request.sequence != expected_sequence {
        return Err(ErrorCode::StaleRequestSequence);
    }
    if request.is_expired(now) {
        return Err(ErrorCode::RequestExpired);
    }
    if min_assets_out.is_none() && finalizer.is_none() && new_recipient.is_none() {
        return Err(ErrorCode::NothingToUpdate);
    }
    match new_recipient {
        Some(n) => match require_valid_recipient(&n.account, queue_key, queue) {
            Ok(()) => {},
            Err(e) => return Err(e),
        },
        None => {},
    }
    match new_recipient {
        Some(n) => request.recipient_token_account = n.key,
        None => {},
    }
    match min_assets_out {
        Some(m) => request.min_assets_out = m,
        None => {},
    }
    match finalizer {
        Some(f) => request.finalizer = f,
        None => {},
    }
    Ok(WithdrawalRequestUpdated::snapshot(request, queue.vault_state, request_key))
}

} // verus!
