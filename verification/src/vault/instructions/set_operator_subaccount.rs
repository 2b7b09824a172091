//! The admin names where operator funds go, or rolls back to zero.

use crate::key::{zero_bytes, Pubkey};
use crate::token::TokenAccountState;
use crate::vault::errors::ErrorCode;
use crate::vault::state::vault::VaultState;
use vstd::prelude::*;

verus! {

/// Why naming `new_subaccount` is refused, if it is. Without its token
/// account only the rollback to zero is possible; with it, the account must
/// carry the vault as delegate with a non-zero allowance, and the address must
/// not be the operator.
pub open spec fn set_subaccount_refusal(
    vault: VaultState,
    admin: Pubkey,
    vault_key: Pubkey,
    subaccount_ata: Option<TokenAccountState>,
    new_subaccount: Pubkey,
) -> Option<ErrorCode> {
    if admin != vault.admin {
        Some(ErrorCode::NotAdmin)
    } else {
        match subaccount_ata {
            None => if new_subaccount@ != zero_bytes() {
                Some(ErrorCode::InvalidOperatorSubaccount)
            } else {
                None
            },
            Some(ata) => if !(ata.delegate == Some(vault_key) && ata.delegated_amount > 0) {
                Some(ErrorCode::SubaccountDelegationMissing)
            } else if new_subaccount == vault.operator {
                Some(ErrorCode::InvalidOperatorSubaccount)
            } else {
                None
            },
        }
    }
}

/// Set `operator_subaccount` to `new_subaccount`, whose deposit-mint token
/// account is `subaccount_ata`. On refusal nothing changes.
pub fn handler(
    vault: &mut VaultState,
    admin: Pubkey,
    vault_key: Pubkey,
    subaccount_ata: Option<TokenAccountState>,
    new_subaccount: Pubkey,
) -> (r: Result<(), ErrorCode>)
    ensures
        match set_subaccount_refusal(*old(vault), admin, vault_key, subaccount_ata, new_subaccount) {
            Some(e) => r == Err::<(), ErrorCode>(e) && *final(vault) == *old(vault),
            None => r == Ok::<(), ErrorCode>(()) && *final(vault) == (VaultState {
                operator_subaccount: new_subaccount,
                ..*old(vault)
            }),
        },
{
    if !admin.same(&vault.admin) {
        return Err(ErrorCode::NotAdmin);
    }
    match subaccount_ata {
        None => {
            if !new_subaccount.is_zero() {
                return Err(ErrorCode::InvalidOperatorSubaccount);
            }
        },
        Some(ata) => {
            if !(ata.delegates_at_least(&vault_key, 1)) {
                return Err(ErrorCode::SubaccountDelegationMissing);
            }
            if new_subaccount.same(&vault.operator) {
                return Err(ErrorCode::InvalidOperatorSubaccount);
            }
        },
    }
    vault.operator_subaccount = new_subaccount;
    Ok(())
}

} // verus!
