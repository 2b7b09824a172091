//! The nominee accepts the admin role.

use crate::key::Pubkey;
use crate::vault::errors::ErrorCode;
use crate::vault::state::nominated_admin::NominatedAdmin;
use crate::vault::state::vault::VaultState;
use vstd::prelude::*;

verus! {

/// What accepting does: the nominee, before the deadline, becomes admin.
pub open spec fn accept_effect(
    old_vault: VaultState,
    new_vault: VaultState,
    nomination: NominatedAdmin,
    new_admin: Pubkey,
    now: i64,
    r: Result<(), ErrorCode>,
) -> bool {
    if new_admin != nomination.spec_nominated_admin() {
        r == Err::<(), ErrorCode>(ErrorCode::InvalidNominatedAdmin) && new_vault == old_vault
    } else if !(nomination.spec_valid_until() > now) {
        r == Err::<(), ErrorCode>(ErrorCode::NominationExpired) && new_vault == old_vault
    } else {
        r == Ok::<(), ErrorCode>(()) && new_vault == (VaultState {
            admin: nomination.spec_nominated_admin(),
            ..old_vault
        })
    }
}

/// Make the nominee the vault's admin. `InvalidNominatedAdmin` unless
/// `new_admin` is the nominee, then `NominationExpired` from the deadline on.
/// On success the caller closes the nomination.
pub fn handler(vault: &mut VaultState, nomination: &NominatedAdmin, new_admin: Pubkey, now: i64) -> (r:
    Result<(), ErrorCode>)
    ensures
        accept_effect(*old(vault), *final(vault), *nomination, new_admin, now, r),
{
    match nomination.valid_accept_nomination(&new_admin, now) {
        Ok(()) => {},
        Err(e) => return Err(e),
    }
    vault.admin = nomination.nominated_admin();
    Ok(())
}

} // verus!
