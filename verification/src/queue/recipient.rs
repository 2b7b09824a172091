//! Where a request may be paid out.

use crate::key::Pubkey;
use crate::queue::errors::ErrorCode;
use crate::queue::state::withdrawal_queue::WithdrawalQueue;
use crate::token::TokenAccountState;
use vstd::prelude::*;

verus! {

/// Whether `recipient` may receive a payout from the queue at `queue_key`.
pub open spec fn valid_recipient(recipient: TokenAccountState, queue_key: Pubkey, queue: WithdrawalQueue) -> bool {
    recipient.mint == queue.deposit_mint && recipient.owner != queue_key && recipient.owner
        != queue.vault_state
}

/// The recipient must hold the deposit mint and must belong to neither the
/// queue nor the vault: paying an escrow would move nothing, paying the
/// reserve would hand the payout back. `InvalidRecipient` otherwise.
pub fn require_valid_recipient(
    recipient: &TokenAccountState,
    queue_key: Pubkey,
    queue: &WithdrawalQueue,
) -> (r: Result<(), ErrorCode>)
    ensures
        r == if valid_recipient(*recipient, queue_key, *queue) {
            Ok(())
        } else {
            Err::<(), ErrorCode>(ErrorCode::InvalidRecipient)
        },
{
    if !recipient.mint.same(&queue.deposit_mint) {
        return Err(ErrorCode::InvalidRecipient);
    }
    if recipient.owner.same(&queue_key) {
        return Err(ErrorCode::InvalidRecipient);
    }
    if recipient.owner.same(&queue.vault_state) {
        return Err(ErrorCode::InvalidRecipient);
    }
    Ok(())
}

} // verus!
