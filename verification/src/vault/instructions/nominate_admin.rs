//! The admin nominates a successor.

use crate::key::Pubkey;
use crate::vault::errors::ErrorCode;
use crate::vault::state::nominated_admin::{NominatedAdmin, ONE_DAY_IN_SECONDS};
use crate::vault::state::vault::VaultState;
use vstd::prelude::*;

verus! {

/// What nominating does: by the admin, the nominee and a one-day deadline
/// are recorded.
pub open spec fn nominate_effect(
    vault: VaultState,
    admin: Pubkey,
    old_nomination: NominatedAdmin,
    new_nomination: NominatedAdmin,
    nominated: Pubkey,
    now: i64,
    r: Result<(), ErrorCode>,
) -> bool {
    if admin != vault.admin {
        r == Err::<(), ErrorCode>(ErrorCode::NotAdmin) && new_nomination == old_nomination
    } else {
        &&& r == Ok::<(), ErrorCode>(())
        &&& new_nomination.spec_nominated_admin() == nominated
        &&& new_nomination.spec_valid_until() == now + ONE_DAY_IN_SECONDS
    }
}

/// Record `nominated` as the vault's admin nominee, acceptable for one day
/// from `now`, replacing any earlier nomination. `NotAdmin` unless `admin` is
/// the vault's admin.
pub fn handler(
    vault: &VaultState,
    admin: Pubkey,
    nomination: &mut NominatedAdmin,
    nominated: Pubkey,
    now: i64,
) -> (r: Result<(), ErrorCode>)
    requires
        admin == vault.admin ==> now <= i64::MAX - ONE_DAY_IN_SECONDS,
    ensures
        nominate_effect(*vault, admin, *old(nomination), *final(nomination), nominated, now, r),
{
    if !admin.same(&vault.admin) {
        return Err(ErrorCode::NotAdmin);
    }
    nomination.initialize(nominated, now);
    Ok(())
}

} // verus!
