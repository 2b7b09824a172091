//! The shape of a batched instruction: trailing accounts, `stride` per
//! request with the request first, and one expected sequence per request.
//! Request keys must be strictly ascending, so no request can appear twice.

use crate::key::{lex_less, Pubkey};
use crate::queue::errors::{ConstraintViolation, ErrorCode};
use crate::queue::state::withdrawal_request::WithdrawalRequest;
use vstd::prelude::*;

verus! {

/// The most requests `expedite_requests` accepts.
pub const MAX_EXPEDITE_BATCH: usize = 20;

/// The most requests `finalize_withdrawals` accepts.
pub const MAX_FINALIZE_BATCH: usize = 5;

/// The first key of each of the `groups` groups of `stride` keys.
pub open spec fn group_heads(remaining: Seq<Pubkey>, groups: nat, stride: nat) -> Seq<Pubkey> {
    Seq::new(groups, |i: int| remaining[i * stride])
}

/// Every key sorts strictly before the next.
pub open spec fn strictly_ascending(keys: Seq<Pubkey>) -> bool {
    forall|i: int| 0 <= i < keys.len() - 1 ==> lex_less(#[trigger] keys[i]@, keys[i + 1]@)
}

/// Why a batch is refused, if it is.
pub open spec fn batch_refusal(remaining: Seq<Pubkey>, sequences: nat, stride: nat, max: nat) -> Option<
    ErrorCode,
> {
    if sequences == 0 {
        Some(ErrorCode::EmptyBatch)
    } else if sequences > max {
        Some(ErrorCode::BatchTooLarge)
    } else if remaining.len() != sequences * stride {
        Some(ErrorCode::BatchLengthMismatch)
    } else if !strictly_ascending(group_heads(remaining, sequences, stride)) {
        Some(ErrorCode::RequestsNotSorted)
    } else {
        None
    }
}

proof fn lemma_group_index(i: int, n: int, stride: int)
    requires
        0 <= i < n,
        stride > 0,
    ensures
        0 <= i * stride,
        i * stride + stride <= n * stride,
        (i + 1) * stride == i * stride + stride,
{
    assert(0 <= i * stride) by (nonlinear_arith)
        requires
            0 <= i,
            stride > 0,
    ;
    assert((i + 1) * stride == i * stride + stride) by (nonlinear_arith);
    assert((i + 1) * stride <= n * stride) by (nonlinear_arith)
        requires
            i + 1 <= n,
            stride > 0,
    ;
}

/// Check a batch of `sequences.len()` requests laid out in `remaining`, at most
/// `max` of them, and return each group's first key (the request) in order.
/// `EmptyBatch`, `BatchTooLarge`, `BatchLengthMismatch` and
/// `RequestsNotSorted`, in that order.
pub fn groups(remaining: &Vec<Pubkey>, sequences: &Vec<u64>, stride: usize, max: usize) -> (r: Result<
    Vec<Pubkey>,
    ErrorCode,
>)
    requires
        stride > 0,
        sequences.len() <= max ==> sequences.len() * stride <= usize::MAX,
    ensures
        match batch_refusal(remaining@, sequences.len() as nat, stride as nat, max as nat) {
            Some(e) => r == Err::<Vec<Pubkey>, ErrorCode>(e),
            None => r matches Ok(heads) && heads@ == group_heads(
                remaining@,
                sequences.len() as nat,
                stride as nat,
            ),
        },
{
    let n = sequences.len();
    if n == 0 {
        return Err(ErrorCode::EmptyBatch);
    }
    if n > max {
        return Err(ErrorCode::BatchTooLarge);
    }
    if remaining.len() != n * stride {
        return Err(ErrorCode::BatchLengthMismatch);
    }
    let ghost heads_spec = group_heads(remaining@, n as nat, stride as nat);
    proof {
        lemma_group_index(0, n as int, stride as int);
    }
    let mut heads: Vec<Pubkey> = Vec::new();
    heads.push(remaining[0]);
    let mut i: usize = 1;
    let mut p: usize = 0;
    while i < n
        invariant
            1 <= i <= n,
            n == sequences.len(),
            n <= max,
            stride > 0,
            remaining.len() == n * stride,
            p == (i - 1) * stride,
            heads_spec == group_heads(remaining@, n as nat, stride as nat),
            heads@ == heads_spec.subrange(0, i as int),
            forall|j: int| 0 <= j < i - 1 ==> lex_less(#[trigger] heads_spec[j]@, heads_spec[j + 1]@),
        decreases n - i,
    {
        proof {
            lemma_group_index((i - 1) as int, n as int, stride as int);
            lemma_group_index(i as int, n as int, stride as int);
        }
        let q = p + stride;
        let earlier = remaining[p];
        let later = remaining[q];
        if !earlier.less_than(&later) {
            assert(!strictly_ascending(heads_spec)) by {
                assert(heads_spec[i - 1] == earlier);
                assert(heads_spec[i as int] == later);
            }
            return Err(ErrorCode::RequestsNotSorted);
        }
        heads.push(later);
        assert(heads_spec[i as int] == later);
        assert(heads@ =~= heads_spec.subrange(0, i + 1));
        i = i + 1;
        p = q;
    }
    assert(heads@ =~= heads_spec);
    Ok(heads)
}

/// Accept a trailing request only when it was passed writable
/// (`ConstraintMut`) and belongs to the queue at `queue` (`ConstraintHasOne`).
pub fn load_request(is_writable: bool, request: WithdrawalRequest, queue: Pubkey) -> (r: Result<
    WithdrawalRequest,
    ConstraintViolation,
>)
    ensures
        r == if !is_writable {
            Err::<WithdrawalRequest, ConstraintViolation>(ConstraintViolation::ConstraintMut)
        } else if request.queue != queue {
            Err::<WithdrawalRequest, ConstraintViolation>(ConstraintViolation::ConstraintHasOne)
        } else {
            Ok(request)
        },
{
    if !is_writable {
        return Err(ConstraintViolation::ConstraintMut);
    }
    if !request.queue.same(&queue) {
        return Err(ConstraintViolation::ConstraintHasOne);
    }
    Ok(request)
}

} // verus!
