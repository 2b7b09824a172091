//! The admin assigns the operator.

use crate::key::{zero_bytes, Pubkey};
use crate::vault::errors::ErrorCode;
use crate::vault::state::vault::VaultState;
use vstd::prelude::*;

verus! {

/// Set `operator`. `NotAdmin` unless `admin` is the vault's admin; then
/// `InvalidOperatorSubaccount` if the new operator is the named operator
/// subaccount, which would undo that separation; then `InvalidAuthority` for
/// the zero key, which nobody can sign for.
pub fn handler(vault: &mut VaultState, admin: Pubkey, new_operator: Pubkey) -> (r: Result<
    (),
    ErrorCode,
>)
    ensures
        if admin != old(vault).admin {
            r == Err::<(), ErrorCode>(ErrorCode::NotAdmin) && *final(vault) == *old(vault)
        } else if old(vault).operator_subaccount@ != zero_bytes() && old(vault).operator_subaccount
            == new_operator {
            r == Err::<(), ErrorCode>(ErrorCode::InvalidOperatorSubaccount) && *final(vault)
                == *old(vault)
        } else if new_operator@ == zero_bytes() {
            r == Err::<(), ErrorCode>(ErrorCode::InvalidAuthority) && *final(vault) == *old(vault)
        } else {
            r == Ok::<(), ErrorCode>(()) && *final(vault) == (VaultState {
                operator: new_operator,
                ..*old(vault)
            })
        },
{
    if !admin.same(&vault.admin) {
        return Err(ErrorCode::NotAdmin);
    }
    match vault.operator_subaccount() {
        Some(sub) => {
            if sub.same(&new_operator) {
                return Err(ErrorCode::InvalidOperatorSubaccount);
            }
        },
        None => {},
    }
    if new_operator.is_zero() {
        return Err(ErrorCode::InvalidAuthority);
    }
    vault.operator = new_operator;
    Ok(())
}

} // verus!
