//! Properties of the queue that span several calls.

use crate::key::Pubkey;
use crate::queue::errors::{BatchError, ErrorCode};
use crate::queue::instructions::expedite_request::{entry_refusal, expedite_refusal, BatchEntry};
use crate::queue::instructions::finalize_withdrawal::{
    finalize_entry_refusal, finalize_prefix, finalize_refusal, FinalizeEntry,
};
use crate::queue::state::withdrawal_queue::{
    close_request_effect, open_request_effect, WithdrawalQueue,
};
use crate::queue::state::withdrawal_request::WithdrawalRequest;
use crate::token::TokenAccountState;
use vstd::prelude::*;

verus! {

/// Counting a request in and then out again leaves both pending counters as
/// they were, the close cannot fail, and the sequence stays advanced: a stamp
/// is never reused.
pub proof fn lemma_open_then_close_restores_counters(
    q0: WithdrawalQueue,
    q1: WithdrawalQueue,
    q2: WithdrawalQueue,
    shares: u64,
    stamp: u64,
    closed: Result<(), ErrorCode>,
)
    requires
        open_request_effect(q0, q1, shares, Ok(stamp)),
        close_request_effect(q1, q2, shares, closed),
    ensures
        closed == Ok::<(), ErrorCode>(()),
        stamp == q0.sequence + 1,
        q2 == (WithdrawalQueue { sequence: stamp, ..q0 }),
{
}

/// The owner is never refused as a finalizer: whoever else a request names,
/// its owner may always finalize it.
pub proof fn lemma_owner_may_always_finalize(
    queue: WithdrawalQueue,
    queue_key: Pubkey,
    vault_key: Pubkey,
    request: WithdrawalRequest,
    recipient: TokenAccountState,
    fee_recipient_account: Pubkey,
    expected_sequence: u64,
    now: i64,
)
    ensures
        finalize_refusal(
            queue,
            queue_key,
            vault_key,
            request,
            request.owner,
            recipient,
            fee_recipient_account,
            queue.escrow_assets,
            expected_sequence,
            now,
        ) != Some(ErrorCode::FinalizerNotAllowed),
{
}

/// Expediting never revives a lapsed request and never opens a request that
/// can already be finalized: whatever it accepts was pending, unexpired and
/// not yet eligible.
pub proof fn lemma_expedite_only_widens_the_window(
    request: WithdrawalRequest,
    now: i64,
    expected_sequence: u64,
)
    requires
        expedite_refusal(request, now, expected_sequence) is None,
    ensures
        request.eligible_at > now,
        !(request.expires_at != 0 && now >= request.expires_at),
{
}

/// The shares held by the first `n` entries of a batch.
pub open spec fn batch_shares(entries: Seq<FinalizeEntry>, n: nat) -> int
    decreases n,
{
    if n == 0 {
        0
    } else {
        batch_shares(entries, (n - 1) as nat) + entries[n - 1].request.shares
    }
}

/// A finalize batch that goes through counts out exactly its requests: the
/// pending count drops by the number of requests, the pending shares by the
/// shares they held, and nothing else about the queue changes.
pub proof fn lemma_batch_counts_out_exactly_its_requests(
    queue: WithdrawalQueue,
    queue_key: Pubkey,
    vault_key: Pubkey,
    entries: Seq<FinalizeEntry>,
    finalizer: Pubkey,
    fee_recipient_account: Pubkey,
    expected_sequences: Seq<u64>,
    now: i64,
    n: nat,
    after: WithdrawalQueue,
)
    requires
        finalize_prefix(
            queue,
            queue_key,
            vault_key,
            entries,
            finalizer,
            fee_recipient_account,
            expected_sequences,
            now,
            n,
        ) == Ok::<WithdrawalQueue, crate::queue::errors::BatchError>(after),
    ensures
        after.pending_requests == queue.pending_requests - n,
        after.pending_shares == queue.pending_shares - batch_shares(entries, n),
        after == (WithdrawalQueue {
            pending_requests: after.pending_requests,
            pending_shares: after.pending_shares,
            ..queue
        }),
    decreases n,
{
    if n > 0 {
        let earlier = finalize_prefix(
            queue,
            queue_key,
            vault_key,
            entries,
            finalizer,
            fee_recipient_account,
            expected_sequences,
            now,
            (n - 1) as nat,
        );
        lemma_batch_counts_out_exactly_its_requests(
            queue,
            queue_key,
            vault_key,
            entries,
            finalizer,
            fee_recipient_account,
            expected_sequences,
            now,
            (n - 1) as nat,
            earlier->Ok_0,
        );
    }
}

/// Eligibility is read from `eligible_at` alone: once `now` has reached it, a
/// finalization is never refused for the cooldown, whatever the first
/// schedule said. In particular a request expedited at `t` may be finalized
/// at `t`.
pub proof fn lemma_finalize_waits_for_eligible_at_alone(
    queue: WithdrawalQueue,
    queue_key: Pubkey,
    vault_key: Pubkey,
    request: WithdrawalRequest,
    finalizer: Pubkey,
    recipient: TokenAccountState,
    fee_recipient_account: Pubkey,
    escrow_assets: Pubkey,
    expected_sequence: u64,
    now: i64,
    entry: FinalizeEntry,
    expedite_at: i64,
    expedite_sequence: u64,
)
    ensures
        now >= request.eligible_at ==> finalize_refusal(
            queue,
            queue_key,
            vault_key,
            request,
            finalizer,
            recipient,
            fee_recipient_account,
            escrow_assets,
            expected_sequence,
            now,
        ) != Some(ErrorCode::CooldownNotElapsed),
        now >= entry.request.eligible_at ==> finalize_entry_refusal(
            queue,
            queue_key,
            vault_key,
            entry,
            finalizer,
            fee_recipient_account,
            expected_sequence,
            now,
        ) != Some(BatchError::Queue(ErrorCode::CooldownNotElapsed)),
        expedite_refusal(request, expedite_at, expedite_sequence) is None ==> finalize_refusal(
            queue,
            queue_key,
            vault_key,
            WithdrawalRequest { eligible_at: expedite_at, ..request },
            finalizer,
            recipient,
            fee_recipient_account,
            escrow_assets,
            expected_sequence,
            expedite_at,
        ) != Some(ErrorCode::CooldownNotElapsed),
{
}

/// A zero `expires_at` means the request never expires: neither expediting
/// nor finalizing it, alone or in a batch, is ever refused as expired. A
/// request with the right stamp, no deadline and `eligible_at` still ahead is
/// expedited.
pub proof fn lemma_a_zero_deadline_never_expires(
    queue: WithdrawalQueue,
    queue_key: Pubkey,
    vault_key: Pubkey,
    request: WithdrawalRequest,
    finalizer: Pubkey,
    recipient: TokenAccountState,
    fee_recipient_account: Pubkey,
    escrow_assets: Pubkey,
    expected_sequence: u64,
    now: i64,
    batch_entry: BatchEntry,
    finalize_entry: FinalizeEntry,
)
    ensures
        request.expires_at == 0 ==> expedite_refusal(request, now, expected_sequence) != Some(
            ErrorCode::RequestExpired,
        ),
        request.expires_at == 0 && request.sequence == expected_sequence && now
            < request.eligible_at ==> expedite_refusal(request, now, expected_sequence) is None,
        batch_entry.request.expires_at == 0 ==> entry_refusal(
            batch_entry,
            queue_key,
            now,
            expected_sequence,
        ) != Some(BatchError::Queue(ErrorCode::RequestExpired)),
        request.expires_at == 0 ==> finalize_refusal(
            queue,
            queue_key,
            vault_key,
            request,
            finalizer,
            recipient,
            fee_recipient_account,
            escrow_assets,
            expected_sequence,
            now,
        ) != Some(ErrorCode::RequestExpired),
        finalize_entry.request.expires_at == 0 ==> finalize_entry_refusal(
            queue,
            queue_key,
            vault_key,
            finalize_entry,
            finalizer,
            fee_recipient_account,
            expected_sequence,
            now,
        ) != Some(BatchError::Queue(ErrorCode::RequestExpired)),
{
}

} // verus!
