//! The per-vault queue account: escrow authority, settings and counters.
//!
//! The counters and bounds move only through the methods below, and every
//! method computes its new values before writing any, so a refusal leaves the
//! account as it was.

use crate::key::Pubkey;
use crate::queue::errors::ErrorCode;
use vstd::prelude::*;

verus! {

/// First seed of a vault's queue address.
pub const WITHDRAWAL_QUEUE_SEED: [u8; 16] = [119, 105, 116, 104, 100, 114, 97, 119, 97, 108, 95, 113, 117, 101, 117, 101];

/// Upper bound on `cooldown_seconds`: 30 days.
pub const MAX_COOLDOWN_SECONDS: u64 = 2_592_000;

/// Lower bound on a non-zero `fulfillment_window_seconds`: one day.
pub const MIN_FULFILLMENT_WINDOW_SECONDS: u64 = 86_400;

/// Upper bound on `fulfillment_window_seconds`: 90 days.
pub const MAX_FULFILLMENT_WINDOW_SECONDS: u64 = 7_776_000;

/// How long a vault must stay released before the admin may cancel a request.
pub const ADMIN_CANCEL_DELAY_SECONDS: i64 = 86_400;

/// One queue per vault.
#[derive(Clone, Copy, Debug)]
pub struct WithdrawalQueue {
    /// The vault this queue serves.
    pub vault_state: Pubkey,
    pub deposit_mint: Pubkey,
    pub share_mint: Pubkey,
    /// Holds every pending request's shares.
    pub escrow_shares: Pubkey,
    /// Transit account for payouts.
    pub escrow_assets: Pubkey,
    /// Wait between request and eligibility, at most [`MAX_COOLDOWN_SECONDS`].
    pub cooldown_seconds: u64,
    /// How long after scheduled eligibility a request may still be finalized;
    /// zero never expires.
    pub fulfillment_window_seconds: u64,
    /// Queue-wide stamp counter; the first stamp handed out is 1.
    pub sequence: u64,
    /// Live requests.
    pub pending_requests: u64,
    /// Sum of `shares` over live requests.
    pub pending_shares: u64,
    pub bump: u8,
    /// Unix time of the latest release of the vault; zero if never released.
    pub released_at: i64,
    /// Whether new requests are accepted.
    pub accepting_requests: bool,
    /// Reserved for fields added later; zero on a fresh queue.
    pub padding: [u64; 19],
}

/// `n` zero words: what reserved space holds on a fresh account.
pub open spec fn zero_words(n: nat) -> Seq<u64> {
    Seq::new(n, |i: int| 0u64)
}

/// The window values a queue may hold: zero, or one day to 90 days.
pub open spec fn valid_window(seconds: u64) -> bool {
    seconds == 0 || (MIN_FULFILLMENT_WINDOW_SECONDS <= seconds
        && seconds <= MAX_FULFILLMENT_WINDOW_SECONDS)
}

/// What `open_request` returns and does.
pub open spec fn open_request_effect(
    old_queue: WithdrawalQueue,
    new_queue: WithdrawalQueue,
    shares: u64,
    r: Result<u64, ErrorCode>,
) -> bool {
    if old_queue.sequence + 1 > u64::MAX || old_queue.pending_requests + 1 > u64::MAX
        || old_queue.pending_shares + shares > u64::MAX {
        r == Err::<u64, ErrorCode>(ErrorCode::MathError) && new_queue == old_queue
    } else {
        &&& r == Ok::<u64, ErrorCode>((old_queue.sequence + 1) as u64)
        &&& new_queue == (WithdrawalQueue {
            sequence: (old_queue.sequence + 1) as u64,
            pending_requests: (old_queue.pending_requests + 1) as u64,
            pending_shares: (old_queue.pending_shares + shares) as u64,
            ..old_queue
        })
    }
}

/// What `close_request` returns and does.
pub open spec fn close_request_effect(
    old_queue: WithdrawalQueue,
    new_queue: WithdrawalQueue,
    shares: u64,
    r: Result<(), ErrorCode>,
) -> bool {
    if old_queue.pending_requests < 1 || old_queue.pending_shares < shares {
        r == Err::<(), ErrorCode>(ErrorCode::MathError) && new_queue == old_queue
    } else {
        &&& r == Ok::<(), ErrorCode>(())
        &&& new_queue == (WithdrawalQueue {
            pending_requests: (old_queue.pending_requests - 1) as u64,
            pending_shares: (old_queue.pending_shares - shares) as u64,
            ..old_queue
        })
    }
}

impl Default for WithdrawalQueue {
    /// The all-zero queue: what a freshly created account reads as.
    fn default() -> (r: Self)
        ensures
            r.vault_state@ == crate::key::zero_bytes(),
            r.deposit_mint@ == crate::key::zero_bytes(),
            r.share_mint@ == crate::key::zero_bytes(),
            r.escrow_shares@ == crate::key::zero_bytes(),
            r.escrow_assets@ == crate::key::zero_bytes(),
            r.cooldown_seconds == 0,
            r.fulfillment_window_seconds == 0,
            r.sequence == 0,
            r.pending_requests == 0,
            r.pending_shares == 0,
            r.bump == 0,
            r.released_at == 0,
            !r.accepting_requests,
            r.padding@ == zero_words(19),
    {
        WithdrawalQueue {
            vault_state: Pubkey::zero(),
            deposit_mint: Pubkey::zero(),
            share_mint: Pubkey::zero(),
            escrow_shares: Pubkey::zero(),
            escrow_assets: Pubkey::zero(),
            cooldown_seconds: 0,
            fulfillment_window_seconds: 0,
            sequence: 0,
            pending_requests: 0,
            pending_shares: 0,
            bump: 0,
            released_at: 0,
            accepting_requests: false,
            padding: [0; 19],
        }
    }
}

impl WithdrawalQueue {
    /// Fill a freshly created queue: no expiry window, empty counters, never
    /// released, then the cooldown, which must be within its bound
    /// (`CooldownOutOfBounds` otherwise, with the cooldown left as it was).
    pub fn init(
        &mut self,
        vault_state: Pubkey,
        deposit_mint: Pubkey,
        share_mint: Pubkey,
        escrow_shares: Pubkey,
        escrow_assets: Pubkey,
        bump: u8,
        cooldown_seconds: u64,
    ) -> (r: Result<(), ErrorCode>)
        ensures
            r == (if cooldown_seconds <= MAX_COOLDOWN_SECONDS {
                Ok(())
            } else {
                Err::<(), ErrorCode>(ErrorCode::CooldownOutOfBounds)
            }),
            *final(self) == (WithdrawalQueue {
                vault_state,
                deposit_mint,
                share_mint,
                escrow_shares,
                escrow_assets,
                cooldown_seconds: if cooldown_seconds <= MAX_COOLDOWN_SECONDS {
                    cooldown_seconds
                } else {
                    old(self).cooldown_seconds
                },
                fulfillment_window_seconds: 0,
                sequence: 0,
                pending_requests: 0,
                pending_shares: 0,
                bump,
                released_at: 0,
                padding: final(self).padding,
                ..*old(self)
            }),
            final(self).padding@ == zero_words(19),
    {
        self.vault_state = vault_state;
        self.deposit_mint = deposit_mint;
        self.share_mint = share_mint;
        self.escrow_shares = escrow_shares;
        self.escrow_assets = escrow_assets;
        self.fulfillment_window_seconds = 0;
        self.sequence = 0;
        self.pending_requests = 0;
        self.pending_shares = 0;
        self.bump = bump;
        self.released_at = 0;
        self.padding = [0; 19];
        self.set_cooldown(cooldown_seconds)
    }

    /// Set the cooldown for new requests; `CooldownOutOfBounds` over
    /// [`MAX_COOLDOWN_SECONDS`], leaving the old value.
    pub fn set_cooldown(&mut self, seconds: u64) -> (r: Result<(), ErrorCode>)
        ensures
            if seconds <= MAX_COOLDOWN_SECONDS {
                r == Ok::<(), ErrorCode>(()) && *final(self) == (WithdrawalQueue {
                    cooldown_seconds: seconds,
                    ..*old(self)
                })
            } else {
                r == Err::<(), ErrorCode>(ErrorCode::CooldownOutOfBounds) && *final(self) == *old(
                    self,
                )
            },
    {
        if seconds > MAX_COOLDOWN_SECONDS {
            return Err(ErrorCode::CooldownOutOfBounds);
        }
        self.cooldown_seconds = seconds;
        Ok(())
    }

    /// Set the fulfillment window for new requests: zero disables expiry,
    /// anything else must lie within one to 90 days, both inclusive
    /// (`FulfillmentWindowOutOfBounds` otherwise, leaving the old value).
    pub fn set_fulfillment_window(&mut self, seconds: u64) -> (r: Result<(), ErrorCode>)
        ensures
            if valid_window(seconds) {
                r == Ok::<(), ErrorCode>(()) && *final(self) == (WithdrawalQueue {
                    fulfillment_window_seconds: seconds,
                    ..*old(self)
                })
            } else {
                r == Err::<(), ErrorCode>(ErrorCode::FulfillmentWindowOutOfBounds) && *final(self)
                    == *old(self)
            },
    {
        if seconds > MAX_FULFILLMENT_WINDOW_SECONDS {
            return Err(ErrorCode::FulfillmentWindowOutOfBounds);
        }
        if seconds != 0 && seconds < MIN_FULFILLMENT_WINDOW_SECONDS {
            return Err(ErrorCode::FulfillmentWindowOutOfBounds);
        }
        self.fulfillment_window_seconds = seconds;
        Ok(())
    }

    /// Count a new request of `shares` in and return its sequence stamp. The
    /// stamp and both counters advance together or, on overflow (`MathError`),
    /// not at all.
    pub fn open_request(&mut self, shares: u64) -> (r: Result<u64, ErrorCode>)
        ensures
            open_request_effect(*old(self), *final(self), shares, r),
    {
        let sequence = match self.sequence.checked_add(1) {
            Some(v) => v,
            None => return Err(ErrorCode::MathError),
        };
        let pending_requests = match self.pending_requests.checked_add(1) {
            Some(v) => v,
            None => return Err(ErrorCode::MathError),
        };
        let pending_shares = match self.pending_shares.checked_add(shares) {
            Some(v) => v,
            None => return Err(ErrorCode::MathError),
        };
        self.sequence = sequence;
        self.pending_requests = pending_requests;
        self.pending_shares = pending_shares;
        Ok(sequence)
    }

    /// Count a finalized or cancelled request of `shares` out. Underflow means
    /// a request was never counted and is refused with `MathError`, neither
    /// counter touched. The stamp never moves back.
    pub fn close_request(&mut self, shares: u64) -> (r: Result<(), ErrorCode>)
        ensures
            close_request_effect(*old(self), *final(self), shares, r),
    {
        if self.pending_requests < 1 {
            return Err(ErrorCode::MathError);
        }
        if self.pending_shares < shares {
            return Err(ErrorCode::MathError);
        }
        self.pending_requests = self.pending_requests - 1;
        self.pending_shares = self.pending_shares - shares;
        Ok(())
    }

    /// Whether [`ADMIN_CANCEL_DELAY_SECONDS`] have passed at `now` since the
    /// latest release. A queue never released has not waited; a deadline past
    /// `i64::MAX` is `MathError`.
    pub fn admin_cancel_delay_elapsed(&self, now: i64) -> (r: Result<bool, ErrorCode>)
        ensures
            r == (if self.released_at == 0 {
                Ok(false)
            } else if self.released_at + ADMIN_CANCEL_DELAY_SECONDS > i64::MAX {
                Err::<bool, ErrorCode>(ErrorCode::MathError)
            } else {
                Ok(now >= self.released_at + ADMIN_CANCEL_DELAY_SECONDS)
            }),
    {
        if self.released_at == 0 {
            return Ok(false);
        }
        let opens_at = match self.released_at.checked_add(ADMIN_CANCEL_DELAY_SECONDS) {
            Some(v) => v,
            None => return Err(ErrorCode::MathError),
        };
        Ok(now >= opens_at)
    }

    /// The values this queue's address seeds are built from, after the
    /// constant prefix: the vault and the stored bump.
    pub fn signer_seeds(&self) -> (r: (Pubkey, u8))
        ensures
            r == (self.vault_state, self.bump),
    {
        (self.vault_state, self.bump)
    }
}

} // verus!
