//! The owner takes a pending request back.

use crate::key::Pubkey;
use crate::queue::errors::ErrorCode;
use crate::queue::state::withdrawal_queue::{close_request_effect, WithdrawalQueue};
use crate::queue::state::withdrawal_request::WithdrawalRequest;
use vstd::prelude::*;

verus! {

/// The cancel settlement: count `request` out of the queue and return the
/// shares to send back from escrow. `MathError` if the request was never
/// counted, with nothing changed.
pub fn return_shares(queue: &mut WithdrawalQueue, request: &WithdrawalRequest) -> (r: Result<
    u64,
    ErrorCode,
>)
    ensures
        close_request_effect(
            *old(queue),
            *final(queue),
            request.shares,
            match r {
                Ok(_) => Ok(()),
                Err(e) => Err(e),
            },
        ),
        r is Ok ==> r->Ok_0 == request.shares,
{
    let shares = request.shares;
    match queue.close_request(shares) {
        Ok(()) => Ok(shares),
        Err(e) => Err(e),
    }
}

/// Cancel `request` at any time while it exists, in either vault state:
/// `NotRequestOwner` unless `owner` owns it, then `StaleRequestSequence`,
/// then the settlement of [`return_shares`]. Returns the shares the caller
/// sends back to the owner.
pub fn handler(
    queue: &mut WithdrawalQueue,
    request: &WithdrawalRequest,
    owner: Pubkey,
    expected_sequence: u64,
) -> (r: Result<u64, ErrorCode>)
    ensures
        owner != request.owner ==> r == Err::<u64, ErrorCode>(ErrorCode::NotRequestOwner)
            && *final(queue) == *old(queue),
        owner == request.owner && request.sequence != expected_sequence ==> r == Err::<
            u64,
            ErrorCode,
        >(ErrorCode::StaleRequestSequence) && *final(queue) == *old(queue),
        owner == request.owner && request.sequence == expected_sequence ==> close_request_effect(
            *old(queue),
            *final(queue),
            request.shares,
            match r {
                Ok(_) => Ok(()),
                Err(e) => Err(e),
            },
        ) && (r is Ok ==> r->Ok_0 == request.shares),
{
    if !owner.same(&request.owner) {
        return Err(ErrorCode::NotRequestOwner);
    }
    if request.sequence != expected_sequence {
        return Err(ErrorCode::StaleRequestSequence);
    }
    return_shares(queue, request)
}

} // verus!
