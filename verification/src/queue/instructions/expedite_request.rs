//! The vault's admin or operator makes a not-yet-eligible request
//! finalizable now. Only `eligible_at` moves, and only earlier: the scheduled
//! eligibility and the deadline never change, so the window only widens.

use crate::key::Pubkey;
use crate::queue::auth::require_vault_admin_or_operator;
use crate::queue::batch::{batch_refusal, groups, load_request, MAX_EXPEDITE_BATCH};
use crate::queue::errors::{BatchError, ConstraintViolation, ErrorCode};
use crate::queue::state::withdrawal_queue::WithdrawalQueue;
use crate::queue::state::withdrawal_request::WithdrawalRequest;
use crate::vault::state::vault::VaultState;
use vstd::prelude::*;

verus! {

/// Why expediting `request` at `now` is refused, if it is.
pub open spec fn expedite_refusal(request: WithdrawalRequest, now: i64, expected_sequence: u64) -> Option<
    ErrorCode,
> {
    if request.sequence != expected_sequence {
        Some(ErrorCode::StaleRequestSequence)
    } else if request.expires_at != 0 && now >= request.expires_at {
        Some(ErrorCode::RequestExpired)
    } else if now >= request.eligible_at {
        Some(ErrorCode::RequestAlreadyEligible)
    } else {
        None
    }
}

/// Move `eligible_at` to `now` for a pending request that has not reached it
/// and has not expired; returns the previous `eligible_at`. On refusal
/// nothing changes.
pub fn expedite_one(request: &mut WithdrawalRequest, now: i64, expected_sequence: u64) -> (r: Result<
    i64,
    ErrorCode,
>)
    ensures
        match expedite_refusal(*old(request), now, expected_sequence) {
            Some(e) => r == Err::<i64, ErrorCode>(e) && *final(request) == *old(request),
            None => r == Ok::<i64, ErrorCode>(old(request).eligible_at) && *final(request) == (
            WithdrawalRequest { eligible_at: now, ..*old(request) }),
        },
{
    if request.sequence != expected_sequence {
        return Err(ErrorCode::StaleRequestSequence);
    }
    if request.is_expired(now) {
        return Err(ErrorCode::RequestExpired);
    }
    if request.is_eligible(now) {
        return Err(ErrorCode::RequestAlreadyEligible);
    }
    let previous = request.eligible_at;
    request.eligible_at = now;
    Ok(previous)
}

/// Expedite one request on the authority of the vault's admin or operator
/// (`VaultMismatch`, `NotVaultAdmin` first); returns the previous
/// `eligible_at`.
pub fn handler(
    queue: &WithdrawalQueue,
    vault: &VaultState,
    vault_key: Pubkey,
    authority: Pubkey,
    request: &mut WithdrawalRequest,
    expected_sequence: u64,
    now: i64,
) -> (r: Result<i64, ErrorCode>)
    ensures
        vault_key != queue.vault_state ==> r == Err::<i64, ErrorCode>(ErrorCode::VaultMismatch)
            && *final(request) == *old(request),
        vault_key == queue.vault_state && vault.admin != authority && vault.operator != authority
            ==> r == Err::<i64, ErrorCode>(ErrorCode::NotVaultAdmin) && *final(request) == *old(
            request,
        ),
        vault_key == queue.vault_state && (vault.admin == authority || vault.operator
            == authority) ==> match expedite_refusal(*old(request), now, expected_sequence) {
            Some(e) => r == Err::<i64, ErrorCode>(e) && *final(request) == *old(request),
            None => r == Ok::<i64, ErrorCode>(old(request).eligible_at) && *final(request) == (
            WithdrawalRequest { eligible_at: now, ..*old(request) }),
        },
{
    match require_vault_admin_or_operator(queue, vault_key, vault, authority) {
        Ok(()) => {},
        Err(e) => return Err(e),
    }
    expedite_one(request, now, expected_sequence)
}

/// One trailing request of a batch: whether it was passed writable, and its
/// contents.
#[derive(Clone, Copy, Debug)]
pub struct BatchEntry {
    pub is_writable: bool,
    pub request: WithdrawalRequest,
}

/// Why one trailing entry is refused, if it is: the framework's checks on the
/// account, then [`expedite_refusal`].
pub open spec fn entry_refusal(entry: BatchEntry, queue_key: Pubkey, now: i64, expected_sequence: u64) -> Option<
    BatchError,
> {
    if !entry.is_writable {
        Some(BatchError::Constraint(ConstraintViolation::ConstraintMut))
    } else if entry.request.queue != queue_key {
        Some(BatchError::Constraint(ConstraintViolation::ConstraintHasOne))
    } else if expedite_refusal(entry.request, now, expected_sequence) is Some {
        Some(BatchError::Queue(expedite_refusal(entry.request, now, expected_sequence)->0))
    } else {
        None
    }
}

/// The batch form: one trailing request per expected sequence, keys strictly
/// ascending, at most [`MAX_EXPEDITE_BATCH`], all or nothing. `keys` are the
/// trailing accounts' addresses and `entries` their contents, in the same
/// order. Returns each request's previous `eligible_at`; on any refusal no
/// request changes, and the refusal is the first one met in order.
pub fn handler_batch(
    queue: &WithdrawalQueue,
    queue_key: Pubkey,
    vault: &VaultState,
    vault_key: Pubkey,
    authority: Pubkey,
    keys: &Vec<Pubkey>,
    entries: &mut Vec<BatchEntry>,
    expected_sequences: &Vec<u64>,
    now: i64,
) -> (r: Result<Vec<i64>, BatchError>)
    requires
        old(entries).len() == keys.len(),
    ensures
        final(entries).len() == old(entries).len(),
        r is Err ==> final(entries)@ == old(entries)@,
        vault_key != queue.vault_state ==> r == Err::<Vec<i64>, BatchError>(
            BatchError::Queue(ErrorCode::VaultMismatch),
        ),
        vault_key == queue.vault_state && vault.admin != authority && vault.operator != authority
            ==> r == Err::<Vec<i64>, BatchError>(BatchError::Queue(ErrorCode::NotVaultAdmin)),
        vault_key == queue.vault_state && (vault.admin == authority || vault.operator == authority)
            ==> match batch_refusal(
            keys@,
            expected_sequences.len() as nat,
            1,
            MAX_EXPEDITE_BATCH as nat,
        ) {
            Some(e) => r == Err::<Vec<i64>, BatchError>(BatchError::Queue(e)),
            None => {
                &&& r is Ok <==> forall|i: int|
                    0 <= i < old(entries).len() ==> entry_refusal(
                        #[trigger] old(entries)[i],
                        queue_key,
                        now,
                        expected_sequences[i],
                    ) is None
                &&& r matches Err(e) ==> exists|i: int|
                    0 <= i < old(entries).len() && entry_refusal(
                        #[trigger] old(entries)[i],
                        queue_key,
                        now,
                        expected_sequences[i],
                    ) == Some(e) && forall|j: int|
                        0 <= j < i ==> entry_refusal(
                            #[trigger] old(entries)[j],
                            queue_key,
                            now,
                            expected_sequences[j],
                        ) is None
                &&& r matches Ok(previous) ==> previous.len() == old(entries).len() && forall|
                    i: int,
                |
                    0 <= i < old(entries).len() ==> previous[i] == old(entries)[i].request.eligible_at
                        && #[trigger] final(entries)[i] == (BatchEntry {
                        request: WithdrawalRequest {
                            eligible_at: now,
                            ..old(entries)[i].request
                        },
                        ..old(entries)[i]
                    })
            },
        },
{
    match require_vault_admin_or_operator(queue, vault_key, vault, authority) {
        Ok(()) => {},
        Err(e) => return Err(BatchError::Queue(e)),
    }
    match groups(keys, expected_sequences, 1, MAX_EXPEDITE_BATCH) {
        Ok(_) => {},
        Err(e) => return Err(BatchError::Queue(e)),
    }
    let n = entries.len();
    let mut updated: Vec<BatchEntry> = Vec::new();
    let mut previous: Vec<i64> = Vec::new();
    let mut i: usize = 0;
    while i < n
        invariant
            n == entries.len(),
            n == expected_sequences.len(),
            entries@ == old(entries)@,
            vault_key == queue.vault_state,
            vault.admin == authority || vault.operator == authority,
            batch_refusal(keys@, expected_sequences.len() as nat, 1, MAX_EXPEDITE_BATCH as nat)
                is None,
            i <= n,
            updated.len() == i,
            previous.len() == i,
            forall|j: int|
                0 <= j < i ==> entry_refusal(
                    #[trigger] entries[j],
                    queue_key,
                    now,
                    expected_sequences[j],
                ) is None,
            forall|j: int| 0 <= j < i ==> #[trigger] previous[j] == entries[j].request.eligible_at,
            forall|j: int|
                0 <= j < i ==> #[trigger] updated[j] == (BatchEntry {
                    request: WithdrawalRequest { eligible_at: now, ..entries[j].request },
                    ..entries[j]
                }),
        decreases n - i,
    {
        let entry = entries[i];
        let loaded = match load_request(entry.is_writable, entry.request, queue_key) {
            Ok(req) => req,
            Err(c) => {
                assert(entry_refusal(entries[i as int], queue_key, now, expected_sequences[i as int])
                    == Some(BatchError::Constraint(c)));
                return Err(BatchError::Constraint(c));
            },
        };
        let mut request = loaded;
        let before = match expedite_one(&mut request, now, expected_sequences[i]) {
            Ok(p) => p,
            Err(e) => {
                assert(entry_refusal(entries[i as int], queue_key, now, expected_sequences[i as int])
                    == Some(BatchError::Queue(e)));
                return Err(BatchError::Queue(e));
            },
        };
        updated.push(BatchEntry { request, ..entry });
        previous.push(before);
        assert(updated[i as int] == (BatchEntry {
            request: WithdrawalRequest { eligible_at: now, ..entries[i as int].request },
            ..entries[i as int]
        }));
        assert(previous[i as int] == entries[i as int].request.eligible_at);
        i = i + 1;
    }
    *entries = updated;
    assert(forall|j: int|
        0 <= j < old(entries).len() ==> entry_refusal(
            #[trigger] old(entries)[j],
            queue_key,
            now,
            expected_sequences[j],
        ) is None);
    Ok(previous)
}

} // verus!
