//! The admin names the fee recipient.

use crate::key::Pubkey;
use crate::vault::errors::ErrorCode;
use crate::vault::state::vault::VaultState;
use vstd::prelude::*;

verus! {

/// Set `fee_recipient`. `NotAdmin` unless `admin` is the vault's admin.
pub fn handler(vault: &mut VaultState, admin: Pubkey, new_fee_recipient: Pubkey) -> (r: Result<
    (),
    ErrorCode,
>)
    ensures
        if admin != old(vault).admin {
            r == Err::<(), ErrorCode>(ErrorCode::NotAdmin) && *final(vault) == *old(vault)
        } else {
            r == Ok::<(), ErrorCode>(()) && *final(vault) == (VaultState {
                fee_recipient: new_fee_recipient,
                ..*old(vault)
            })
        },
{
    if !admin.same(&vault.admin) {
        return Err(ErrorCode::NotAdmin);
    }
    vault.fee_recipient = new_fee_recipient;
    Ok(())
}

} // verus!
