//! One pending withdrawal.
//!
//! A zero-filled request reads as eligible at once and never expiring, so its
//! timestamps are only ever written by [`WithdrawalRequest::schedule`].

use crate::key::{zero_bytes, Pubkey};
use crate::queue::errors::ErrorCode;
use crate::queue::state::withdrawal_queue::zero_words;
use vstd::prelude::*;

verus! {

/// First seed of a request's address.
pub const WITHDRAWAL_REQUEST_SEED: [u8; 18] = [119, 105, 116, 104, 100, 114, 97, 119, 97, 108, 95, 114, 101, 113, 117, 101, 115, 116];

/// One pending withdrawal.
#[derive(Clone, Copy, Debug)]
pub struct WithdrawalRequest {
    /// The queue holding this request's shares.
    pub queue: Pubkey,
    /// Who requested; may update or cancel, and may always finalize.
    pub owner: Pubkey,
    /// Deposit-mint token account paid at finalization.
    pub recipient_token_account: Pubkey,
    /// Who may finalize besides the owner; zero is anyone.
    pub finalizer: Pubkey,
    /// Shares held in escrow for this request.
    pub shares: u64,
    /// The owner's floor on the net payout.
    pub min_assets_out: u64,
    /// Owner-chosen id.
    pub request_id: u64,
    /// Queue-wide stamp at creation.
    pub sequence: u64,
    /// Unix time the request was created.
    pub requested_at: i64,
    /// `requested_at + cooldown`; never changes.
    pub scheduled_eligible_at: i64,
    /// When finalization may begin; only ever moves earlier.
    pub eligible_at: i64,
    /// `scheduled_eligible_at + window`, or zero when the window is disabled.
    pub expires_at: i64,
    pub bump: u8,
    /// Reserved for fields added later; zero on a fresh request.
    pub padding: [u64; 8],
}

/// The timestamps `schedule` writes, or `MathError` when a duration or a sum
/// leaves `i64`: `(requested_at, scheduled_eligible_at, eligible_at, expires_at)`.
pub open spec fn spec_schedule(now: i64, cooldown_seconds: u64, window_seconds: u64) -> Result<
    (i64, i64, i64, i64),
    ErrorCode,
> {
    if cooldown_seconds > i64::MAX || now + cooldown_seconds > i64::MAX {
        Err(ErrorCode::MathError)
    } else if window_seconds == 0 {
        Ok((now, (now + cooldown_seconds) as i64, (now + cooldown_seconds) as i64, 0))
    } else if window_seconds > i64::MAX || now + cooldown_seconds + window_seconds > i64::MAX {
        Err(ErrorCode::MathError)
    } else {
        Ok(
            (
                now,
                (now + cooldown_seconds) as i64,
                (now + cooldown_seconds) as i64,
                (now + cooldown_seconds + window_seconds) as i64,
            ),
        )
    }
}

impl Default for WithdrawalRequest {
    /// The all-zero request: eligible at once and never expiring.
    fn default() -> (r: Self)
        ensures
            r.queue@ == zero_bytes(),
            r.owner@ == zero_bytes(),
            r.recipient_token_account@ == zero_bytes(),
            r.finalizer@ == zero_bytes(),
            r.shares == 0,
            r.min_assets_out == 0,
            r.request_id == 0,
            r.sequence == 0,
            r.requested_at == 0,
            r.scheduled_eligible_at == 0,
            r.eligible_at == 0,
            r.expires_at == 0,
            r.bump == 0,
            r.padding@ == zero_words(8),
    {
        WithdrawalRequest {
            queue: Pubkey::zero(),
            owner: Pubkey::zero(),
            recipient_token_account: Pubkey::zero(),
            finalizer: Pubkey::zero(),
            shares: 0,
            min_assets_out: 0,
            request_id: 0,
            sequence: 0,
            requested_at: 0,
            scheduled_eligible_at: 0,
            eligible_at: 0,
            expires_at: 0,
            bump: 0,
            padding: [0; 8],
        }
    }
}

impl WithdrawalRequest {
    /// Write every timestamp from one `now` and the queue's settings: a
    /// disabled window (zero) stores the `expires_at` sentinel zero, never
    /// `scheduled + 0`. On `MathError` nothing changes.
    pub fn schedule(&mut self, now: i64, cooldown_seconds: u64, window_seconds: u64) -> (r: Result<
        (),
        ErrorCode,
    >)
        ensures
            match spec_schedule(now, cooldown_seconds, window_seconds) {
                Ok(t) => r == Ok::<(), ErrorCode>(()) && *final(self) == (WithdrawalRequest {
                    requested_at: t.0,
                    scheduled_eligible_at: t.1,
                    eligible_at: t.2,
                    expires_at: t.3,
                    ..*old(self)
                }),
                Err(e) => r == Err::<(), ErrorCode>(e) && *final(self) == *old(self),
            },
    {
        if cooldown_seconds > i64::MAX as u64 {
            return Err(ErrorCode::MathError);
        }
        let scheduled = match now.checked_add(cooldown_seconds as i64) {
            Some(v) => v,
            None => return Err(ErrorCode::MathError),
        };
        let expires: i64 = if window_seconds == 0 {
            0
        } else {
            if window_seconds > i64::MAX as u64 {
                return Err(ErrorCode::MathError);
            }
            match scheduled.checked_add(window_seconds as i64) {
                Some(v) => v,
                None => return Err(ErrorCode::MathError),
            }
        };
        self.requested_at = now;
        self.scheduled_eligible_at = scheduled;
        self.eligible_at = scheduled;
        self.expires_at = expires;
        Ok(())
    }

    /// Fill a freshly created request and schedule it. Every field is written
    /// from the arguments, `min_assets_out` starts at zero, and the timestamps
    /// are those of [`Self::schedule`]; on `MathError` nothing changes.
    pub fn open(
        &mut self,
        queue: Pubkey,
        owner: Pubkey,
        recipient_token_account: Pubkey,
        finalizer: Pubkey,
        shares: u64,
        request_id: u64,
        sequence: u64,
        bump: u8,
        now: i64,
        cooldown_seconds: u64,
        window_seconds: u64,
    ) -> (r: Result<(), ErrorCode>)
        ensures
            match spec_schedule(now, cooldown_seconds, window_seconds) {
                Ok(t) => r == Ok::<(), ErrorCode>(()) && *final(self) == (WithdrawalRequest {
                    queue,
                    owner,
                    recipient_token_account,
                    finalizer,
                    shares,
                    min_assets_out: 0,
                    request_id,
                    sequence,
                    requested_at: t.0,
                    scheduled_eligible_at: t.1,
                    eligible_at: t.2,
                    expires_at: t.3,
                    bump,
                    padding: final(self).padding,
                }) && final(self).padding@ == zero_words(8),
                Err(e) => r == Err::<(), ErrorCode>(e) && *final(self) == *old(self),
            },
    {
        let mut fresh = WithdrawalRequest {
            queue,
            owner,
            recipient_token_account,
            finalizer,
            shares,
            min_assets_out: 0,
            request_id,
            sequence,
            requested_at: self.requested_at,
            scheduled_eligible_at: self.scheduled_eligible_at,
            eligible_at: self.eligible_at,
            expires_at: self.expires_at,
            bump,
            padding: [0; 8],
        };
        match fresh.schedule(now, cooldown_seconds, window_seconds) {
            Ok(()) => {},
            Err(e) => return Err(e),
        }
        *self = fresh;
        Ok(())
    }

    /// The request-level finalizer restriction: `None` when the stored key is
    /// zero, which is no restriction.
    pub fn allowed_finalizer(&self) -> (r: Option<Pubkey>)
        ensures
            r == (if self.finalizer@ == zero_bytes() {
                None
            } else {
                Some(self.finalizer)
            }),
    {
        if self.finalizer.is_zero() {
            None
        } else {
            Some(self.finalizer)
        }
    }

    /// Whether `caller` may finalize: the owner always, anyone else only as
    /// the named finalizer, or freely when none is named.
    pub fn may_finalize(&self, caller: &Pubkey) -> (r: bool)
        ensures
            r == (*caller == self.owner || self.finalizer@ == zero_bytes() || *caller
                == self.finalizer),
    {
        if caller.same(&self.owner) {
            return true;
        }
        match self.allowed_finalizer() {
            None => true,
            Some(f) => f.same(caller),
        }
    }

    /// Whether finalization may begin at `now`.
    pub fn is_eligible(&self, now: i64) -> (r: bool)
        ensures
            r == (now >= self.eligible_at),
    {
        now >= self.eligible_at
    }

    /// Whether the first-scheduled cooldown has run at `now`, by the immutable
    /// `scheduled_eligible_at`.
    pub fn is_mature(&self, now: i64) -> (r: bool)
        ensures
            r == (now >= self.scheduled_eligible_at),
    {
        now >= self.scheduled_eligible_at
    }

    /// Whether the fulfillment window has closed at `now`: never for a zero
    /// deadline; the deadline instant itself counts as expired.
    pub fn is_expired(&self, now: i64) -> (r: bool)
        ensures
            r == (self.expires_at != 0 && now >= self.expires_at),
    {
        self.expires_at != 0 && now >= self.expires_at
    }
}

} // verus!
