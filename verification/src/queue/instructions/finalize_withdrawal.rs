//! Pay out a mature request.
//!
//! Two steps around the vault's redemption, which the caller performs as the
//! queue: [`handler`] checks the request and counts it out, returning the
//! shares to redeem; [`payout`] turns the escrow's balance before and after
//! the redemption into the amount forwarded to the recipient, holding it to
//! the request's floor.

use crate::key::{zero_bytes, Pubkey};
use crate::queue::batch::{batch_refusal, groups, load_request, MAX_FINALIZE_BATCH};
use crate::queue::errors::{BatchError, ConstraintViolation, ErrorCode};
use crate::queue::recipient::{require_valid_recipient, valid_recipient};
use crate::queue::state::withdrawal_queue::{close_request_effect, WithdrawalQueue};
use crate::queue::state::withdrawal_request::WithdrawalRequest;
use crate::token::TokenAccountState;
use vstd::prelude::*;

verus! {

/// Why finalizing `request` at `now` by `finalizer` is refused, if it is.
pub open spec fn finalize_refusal(
    queue: WithdrawalQueue,
    queue_key: Pubkey,
    vault_key: Pubkey,
    request: WithdrawalRequest,
    finalizer: Pubkey,
    recipient: TokenAccountState,
    fee_recipient_account: Pubkey,
    escrow_assets: Pubkey,
    expected_sequence: u64,
    now: i64,
) -> Option<ErrorCode> {
    if vault_key != queue.vault_state {
        Some(ErrorCode::VaultMismatch)
    } else if request.sequence != expected_sequence {
        Some(ErrorCode::StaleRequestSequence)
    } else if !(finalizer == request.owner || request.finalizer@ == zero_bytes() || finalizer
        == request.finalizer) {
        Some(ErrorCode::FinalizerNotAllowed)
    } else if !(now >= request.eligible_at) {
        Some(ErrorCode::CooldownNotElapsed)
    } else if request.expires_at != 0 && now >= request.expires_at {
        Some(ErrorCode::RequestExpired)
    } else if !valid_recipient(recipient, queue_key, queue) {
        Some(ErrorCode::InvalidRecipient)
    } else if fee_recipient_account == escrow_assets {
        Some(ErrorCode::FeeAccountIsEscrow)
    } else if queue.pending_requests < 1 || queue.pending_shares < request.shares {
        Some(ErrorCode::MathError)
    } else {
        None
    }
}

/// Check `request` for finalization by `finalizer` at `now` and count it out
/// of the queue; returns the shares the caller redeems from the vault as the
/// queue. The request's stamp must match, the caller must be permitted, the
/// cooldown must have run and the window must be open, the recipient must be
/// valid, and the vault's fee account must not be the asset escrow. On
/// refusal nothing changes.
pub fn handler(
    queue: &mut WithdrawalQueue,
    queue_key: Pubkey,
    vault_key: Pubkey,
    request: &WithdrawalRequest,
    finalizer: Pubkey,
    recipient: &TokenAccountState,
    fee_recipient_account: Pubkey,
    expected_sequence: u64,
    now: i64,
) -> (r: Result<u64, ErrorCode>)
    ensures
        match finalize_refusal(
            *old(queue),
            queue_key,
            vault_key,
            *request,
            finalizer,
            *recipient,
            fee_recipient_account,
            old(queue).escrow_assets,
            expected_sequence,
            now,
        ) {
            Some(e) => r == Err::<u64, ErrorCode>(e) && *final(queue) == *old(queue),
            None => r == Ok::<u64, ErrorCode>(request.shares) && close_request_effect(
                *old(queue),
                *final(queue),
                request.shares,
                Ok(()),
            ),
        },
{
    if !vault_key.same(&queue.vault_state) {
        return Err(ErrorCode::VaultMismatch);
    }
    if request.sequence != expected_sequence {
        return Err(ErrorCode::StaleRequestSequence);
    }
    if !request.may_finalize(&finalizer) {
        return Err(ErrorCode::FinalizerNotAllowed);
    }
    if !request.is_eligible(now) {
        return Err(ErrorCode::CooldownNotElapsed);
    }
    if request.is_expired(now) {
        return Err(ErrorCode::RequestExpired);
    }
    match require_valid_recipient(recipient, queue_key, queue) {
        Ok(()) => {},
        Err(e) => return Err(e),
    }
    if fee_recipient_account.same(&queue.escrow_assets) {
        return Err(ErrorCode::FeeAccountIsEscrow);
    }
    let shares = request.shares;
    match queue.close_request(shares) {
        Ok(()) => {},
        Err(e) => return Err(e),
    }
    Ok(shares)
}

/// What the vault paid into the asset escrow across the redemption: the
/// balance delta, never the amount the vault computed, so a donation sitting
/// in the escrow is never paid out. `MathError` if the balance fell, then
/// `PayoutBelowFloor` when the delta is below the request's `min_assets_out`.
pub fn payout(escrow_before: u64, escrow_after: u64, min_assets_out: u64) -> (r: Result<
    u64,
    ErrorCode,
>)
    ensures
        r == if escrow_after < escrow_before {
            Err::<u64, ErrorCode>(ErrorCode::MathError)
        } else if escrow_after - escrow_before < min_assets_out {
            Err::<u64, ErrorCode>(ErrorCode::PayoutBelowFloor)
        } else {
            Ok((escrow_after - escrow_before) as u64)
        },
{
    let paid = match escrow_after.checked_sub(escrow_before) {
        Some(v) => v,
        None => return Err(ErrorCode::MathError),
    };
    if paid < min_assets_out {
        return Err(ErrorCode::PayoutBelowFloor);
    }
    Ok(paid)
}

/// One request of a finalize batch, as its three trailing accounts present
/// it: the request account, its owner's address and its recipient token
/// account.
#[derive(Clone, Copy, Debug)]
pub struct FinalizeEntry {
    /// Whether the request account was passed writable.
    pub is_writable: bool,
    pub request: WithdrawalRequest,
    /// The address passed as the request's owner.
    pub owner: Pubkey,
    /// The address passed as the request's recipient.
    pub recipient_key: Pubkey,
    /// The recipient account's contents.
    pub recipient: TokenAccountState,
}

/// Why one entry of a batch is refused against `queue`, the queue as the
/// entries before it left it: the framework's checks on the trailing
/// accounts, then [`finalize_refusal`].
pub open spec fn finalize_entry_refusal(
    queue: WithdrawalQueue,
    queue_key: Pubkey,
    vault_key: Pubkey,
    entry: FinalizeEntry,
    finalizer: Pubkey,
    fee_recipient_account: Pubkey,
    expected_sequence: u64,
    now: i64,
) -> Option<BatchError> {
    if !entry.is_writable {
        Some(BatchError::Constraint(ConstraintViolation::ConstraintMut))
    } else if entry.request.queue != queue_key || entry.owner != entry.request.owner
        || entry.recipient_key != entry.request.recipient_token_account {
        Some(BatchError::Constraint(ConstraintViolation::ConstraintHasOne))
    } else {
        match finalize_refusal(
            queue,
            queue_key,
            vault_key,
            entry.request,
            finalizer,
            entry.recipient,
            fee_recipient_account,
            queue.escrow_assets,
            expected_sequence,
            now,
        ) {
            Some(e) => Some(BatchError::Queue(e)),
            None => None,
        }
    }
}

/// The queue after the first `n` entries are counted out one after another,
/// or the first entry's refusal.
pub open spec fn finalize_prefix(
    queue: WithdrawalQueue,
    queue_key: Pubkey,
    vault_key: Pubkey,
    entries: Seq<FinalizeEntry>,
    finalizer: Pubkey,
    fee_recipient_account: Pubkey,
    expected_sequences: Seq<u64>,
    now: i64,
    n: nat,
) -> Result<WithdrawalQueue, BatchError>
    decreases n,
{
    if n == 0 {
        Ok(queue)
    } else {
        match finalize_prefix(
            queue,
            queue_key,
            vault_key,
            entries,
            finalizer,
            fee_recipient_account,
            expected_sequences,
            now,
            (n - 1) as nat,
        ) {
            Err(e) => Err(e),
            Ok(q) => match finalize_entry_refusal(
                q,
                queue_key,
                vault_key,
                entries[n - 1],
                finalizer,
                fee_recipient_account,
                expected_sequences[n - 1],
                now,
            ) {
                Some(e) => Err(e),
                None => Ok(
                    WithdrawalQueue {
                        pending_requests: (q.pending_requests - 1) as u64,
                        pending_shares: (q.pending_shares - entries[n - 1].request.shares) as u64,
                        ..q
                    },
                ),
            },
        }
    }
}

/// A refusal met among the first `n` entries is the refusal of every longer
/// prefix.
proof fn lemma_refusal_persists(
    queue: WithdrawalQueue,
    queue_key: Pubkey,
    vault_key: Pubkey,
    entries: Seq<FinalizeEntry>,
    finalizer: Pubkey,
    fee_recipient_account: Pubkey,
    expected_sequences: Seq<u64>,
    now: i64,
    n: nat,
    m: nat,
)
    requires
        n <= m,
        finalize_prefix(
            queue,
            queue_key,
            vault_key,
            entries,
            finalizer,
            fee_recipient_account,
            expected_sequences,
            now,
            n,
        ) is Err,
    ensures
        finalize_prefix(
            queue,
            queue_key,
            vault_key,
            entries,
            finalizer,
            fee_recipient_account,
            expected_sequences,
            now,
            m,
        ) == finalize_prefix(
            queue,
            queue_key,
            vault_key,
            entries,
            finalizer,
            fee_recipient_account,
            expected_sequences,
            now,
            n,
        ),
    decreases m - n,
{
    if n < m {
        lemma_refusal_persists(
            queue,
            queue_key,
            vault_key,
            entries,
            finalizer,
            fee_recipient_account,
            expected_sequences,
            now,
            n,
            (m - 1) as nat,
        );
    }
}

/// The batch form of [`handler`]: `keys` are the trailing accounts' addresses,
/// three per request with the request first, at most [`MAX_FINALIZE_BATCH`]
/// requests in strictly ascending order, and `entries` what those groups hold,
/// one per expected sequence. All or nothing: the queue must serve the vault
/// at `vault_key` (`VaultMismatch`), the batch must have its shape, and then
/// each entry in turn must pass [`finalize_entry_refusal`] against the queue
/// as the entries before it left it. On success every request is counted out
/// and the shares each one redeems are returned in order; on any refusal
/// nothing changes and the first refusal met is returned.
pub fn handler_batch(
    queue: &mut WithdrawalQueue,
    queue_key: Pubkey,
    vault_key: Pubkey,
    finalizer: Pubkey,
    fee_recipient_account: Pubkey,
    keys: &Vec<Pubkey>,
    entries: &Vec<FinalizeEntry>,
    expected_sequences: &Vec<u64>,
    now: i64,
) -> (r: Result<Vec<u64>, BatchError>)
    requires
        entries.len() == expected_sequences.len(),
    ensures
        vault_key != old(queue).vault_state ==> r == Err::<Vec<u64>, BatchError>(
            BatchError::Queue(ErrorCode::VaultMismatch),
        ) && *final(queue) == *old(queue),
        vault_key == old(queue).vault_state ==> match batch_refusal(
            keys@,
            expected_sequences.len() as nat,
            3,
            MAX_FINALIZE_BATCH as nat,
        ) {
            Some(e) => r == Err::<Vec<u64>, BatchError>(BatchError::Queue(e)) && *final(queue)
                == *old(queue),
            None => match finalize_prefix(
                *old(queue),
                queue_key,
                vault_key,
                entries@,
                finalizer,
                fee_recipient_account,
                expected_sequences@,
                now,
                entries.len() as nat,
            ) {
                Err(e) => r == Err::<Vec<u64>, BatchError>(e) && *final(queue) == *old(queue),
                Ok(q) => {
                    &&& *final(queue) == q
                    &&& r matches Ok(shares) && shares.len() == entries.len() && forall|i: int|
                        0 <= i < entries.len() ==> #[trigger] shares[i] == entries[i].request.shares
                },
            },
        },
{
    if !vault_key.same(&queue.vault_state) {
        return Err(BatchError::Queue(ErrorCode::VaultMismatch));
    }
    match groups(keys, expected_sequences, 3, MAX_FINALIZE_BATCH) {
        Ok(_) => {},
        Err(e) => return Err(BatchError::Queue(e)),
    }
    let ghost start = *queue;
    let n = entries.len();
    let mut current = *queue;
    let mut shares: Vec<u64> = Vec::new();
    let mut i: usize = 0;
    while i < n
        invariant
            n == entries.len(),
            n == expected_sequences.len(),
            i <= n,
            *queue == start,
            start == *old(queue),
            vault_key == start.vault_state,
            batch_refusal(keys@, expected_sequences.len() as nat, 3, MAX_FINALIZE_BATCH as nat)
                is None,
            finalize_prefix(
                start,
                queue_key,
                vault_key,
                entries@,
                finalizer,
                fee_recipient_account,
                expected_sequences@,
                now,
                i as nat,
            ) == Ok::<WithdrawalQueue, BatchError>(current),
            shares.len() == i,
            forall|j: int| 0 <= j < i ==> #[trigger] shares[j] == entries[j].request.shares,
        decreases n - i,
    {
        let entry = entries[i];
        let request = match load_request(entry.is_writable, entry.request, queue_key) {
            Ok(req) => req,
            Err(c) => {
                proof {
                    lemma_refusal_persists(
                        start,
                        queue_key,
                        vault_key,
                        entries@,
                        finalizer,
                        fee_recipient_account,
                        expected_sequences@,
                        now,
                        (i + 1) as nat,
                        n as nat,
                    );
                }
                return Err(BatchError::Constraint(c));
            },
        };
        if !entry.owner.same(&request.owner) || !entry.recipient_key.same(
            &request.recipient_token_account,
        ) {
            proof {
                lemma_refusal_persists(
                    start,
                    queue_key,
                    vault_key,
                    entries@,
                    finalizer,
                    fee_recipient_account,
                    expected_sequences@,
                    now,
                    (i + 1) as nat,
                    n as nat,
                );
            }
            return Err(BatchError::Constraint(ConstraintViolation::ConstraintHasOne));
        }
        let counted = match handler(
            &mut current,
            queue_key,
            vault_key,
            &request,
            finalizer,
            &entry.recipient,
            fee_recipient_account,
            expected_sequences[i],
            now,
        ) {
            Ok(s) => s,
            Err(e) => {
                proof {
                    lemma_refusal_persists(
                        start,
                        queue_key,
                        vault_key,
                        entries@,
                        finalizer,
                        fee_recipient_account,
                        expected_sequences@,
                        now,
                        (i + 1) as nat,
                        n as nat,
                    );
                }
                return Err(BatchError::Queue(e));
            },
        };
        shares.push(counted);
        i = i + 1;
    }
    *queue = current;
    Ok(shares)
}

} // verus!
