//! A pending two-step admin transfer.

use crate::key::Pubkey;
use crate::vault::errors::ErrorCode;
use vstd::prelude::*;

verus! {

/// First seed of a vault's nomination record address.
pub const NOMINATED_ADMIN_PDA_SEED: [u8; 15] = [110, 111, 109, 105, 110, 97, 116, 101, 100, 95, 97, 100, 109, 105, 110];

/// How long a nomination stays acceptable.
pub const ONE_DAY_IN_SECONDS: i64 = 86_400;

/// The nominee and the deadline by which they must accept.
#[derive(Clone, Copy, Debug)]
pub struct NominatedAdmin {
    nominated_admin: Pubkey,
    valid_until: i64,
}

impl NominatedAdmin {
    /// The nominee.
    pub closed spec fn spec_nominated_admin(&self) -> Pubkey {
        self.nominated_admin
    }

    /// The instant from which the nomination is no longer acceptable.
    pub closed spec fn spec_valid_until(&self) -> i64 {
        self.valid_until
    }

    /// A record naming nobody, already expired: what a fresh account reads as.
    pub fn empty() -> (r: NominatedAdmin)
        ensures
            r.spec_nominated_admin()@ == crate::key::zero_bytes(),
            r.spec_valid_until() == 0,
    {
        NominatedAdmin { nominated_admin: Pubkey::zero(), valid_until: 0 }
    }

    /// The record naming `nominated_admin` with deadline `valid_until`, as
    /// stored in an account.
    pub fn from_parts(nominated_admin: Pubkey, valid_until: i64) -> (r: NominatedAdmin)
        ensures
            r.spec_nominated_admin() == nominated_admin,
            r.spec_valid_until() == valid_until,
    {
        NominatedAdmin { nominated_admin, valid_until }
    }

    /// Nominate `nominated_admin`, acceptable for one day from `now`.
    pub fn initialize(&mut self, nominated_admin: Pubkey, now: i64)
        requires
            now <= i64::MAX - ONE_DAY_IN_SECONDS,
        ensures
            final(self).spec_nominated_admin() == nominated_admin,
            final(self).spec_valid_until() == now + ONE_DAY_IN_SECONDS,
    {
        self.nominated_admin = nominated_admin;
        self.valid_until = now + ONE_DAY_IN_SECONDS;
    }

    /// Whether `signer` may accept at `now`: `InvalidNominatedAdmin` for anyone
    /// but the nominee, then `NominationExpired` once the deadline has come.
    pub fn valid_accept_nomination(&self, signer: &Pubkey, now: i64) -> (r: Result<(), ErrorCode>)
        ensures
            r == (if *signer != self.spec_nominated_admin() {
                Err(ErrorCode::InvalidNominatedAdmin)
            } else if !(self.spec_valid_until() > now) {
                Err(ErrorCode::NominationExpired)
            } else {
                Ok(())
            }),
    {
        if !self.is_nominated_admin(signer) {
            return Err(ErrorCode::InvalidNominatedAdmin);
        }
        if !self.is_still_valid(now) {
            return Err(ErrorCode::NominationExpired);
        }
        Ok(())
    }

    /// Whether `key` is the nominee.
    pub fn is_nominated_admin(&self, key: &Pubkey) -> (r: bool)
        ensures
            r == (*key == self.spec_nominated_admin()),
    {
        self.nominated_admin.same(key)
    }

    /// Whether the nomination is still acceptable at `now`.
    pub fn is_still_valid(&self, now: i64) -> (r: bool)
        ensures
            r == (self.spec_valid_until() > now),
    {
        self.valid_until > now
    }

    /// The acceptance deadline.
    pub fn valid_until(&self) -> (r: i64)
        ensures
            r == self.spec_valid_until(),
    {
        self.valid_until
    }

    /// The nominee.
    pub fn nominated_admin(&self) -> (r: Pubkey)
        ensures
            r == self.spec_nominated_admin(),
    {
        self.nominated_admin
    }
}

} // verus!
