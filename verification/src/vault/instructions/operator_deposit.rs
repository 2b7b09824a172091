//! The operator returns assets to the reserve.
//!
//! With subaccounts registered the source is the named subaccount's token
//! account, which the vault pulls from under its delegation; otherwise it is
//! the operator's own account.

use crate::key::Pubkey;
use crate::token::TokenAccountState;
use crate::vault::errors::ErrorCode;
use crate::vault::state::subaccount::Subaccount;
use crate::vault::state::vault::{min_int, VaultState};
use vstd::prelude::*;

verus! {

/// `a - b`, saturating at zero.
pub open spec fn saturating_sub_u64(a: u64, b: u64) -> u64 {
    if b > a {
        0
    } else {
        (a - b) as u64
    }
}

/// Why an operator return is refused, if it is.
pub open spec fn return_refusal(
    vault: VaultState,
    operator: Pubkey,
    vault_key: Pubkey,
    subaccount: Option<Subaccount>,
    source: TokenAccountState,
    amount: u64,
) -> Option<ErrorCode> {
    if operator != vault.operator {
        Some(ErrorCode::NotOperator)
    } else if amount == 0 {
        Some(ErrorCode::ZeroAmount)
    } else if (vault.subaccount_count > 0) != (subaccount is Some) {
        Some(ErrorCode::InvalidSubaccount)
    } else if subaccount is Some && !(source.delegate == Some(vault_key) && source.delegated_amount
        >= amount) {
        Some(ErrorCode::SubaccountDelegationMissing)
    } else {
        None
    }
}

/// What an operator return does to the vault and the subaccount.
pub open spec fn return_effect(
    old_vault: VaultState,
    new_vault: VaultState,
    old_subaccount: Option<Subaccount>,
    new_subaccount: Option<Subaccount>,
    operator: Pubkey,
    vault_key: Pubkey,
    source: TokenAccountState,
    amount: u64,
    r: Result<(), ErrorCode>,
) -> bool {
    match return_refusal(old_vault, operator, vault_key, old_subaccount, source, amount) {
        Some(e) => r == Err::<(), ErrorCode>(e) && new_vault == old_vault && new_subaccount
            == old_subaccount,
        None => {
            let repaid = match old_subaccount {
                Some(s) => min_int(amount as int, s.principal as int) as u64,
                None => amount,
            };
            &&& r == Ok::<(), ErrorCode>(())
            &&& new_vault == (VaultState {
                deployed_aum: saturating_sub_u64(old_vault.deployed_aum, amount),
                local_aum: (old_vault.local_aum + amount) as u64,
                deployed_principal: saturating_sub_u64(old_vault.deployed_principal, repaid),
                ..old_vault
            })
            &&& new_subaccount == match old_subaccount {
                Some(s) => Some(Subaccount { principal: saturating_sub_u64(s.principal, amount), ..s }),
                None => None,
            }
        },
    }
}

/// The refusal of [`return_refusal`], if any.
pub fn refusal(
    vault: &VaultState,
    operator: Pubkey,
    vault_key: Pubkey,
    subaccount: &Option<Subaccount>,
    source: &TokenAccountState,
    amount: u64,
) -> (r: Option<ErrorCode>)
    ensures
        r == return_refusal(*vault, operator, vault_key, *subaccount, *source, amount),
{
    if !operator.same(&vault.operator) {
        return Some(ErrorCode::NotOperator);
    }
    if amount == 0 {
        return Some(ErrorCode::ZeroAmount);
    }
    if vault.requires_subaccount() != subaccount.is_some() {
        return Some(ErrorCode::InvalidSubaccount);
    }
    if subaccount.is_some() && !source.delegates_at_least(&vault_key, amount) {
        return Some(ErrorCode::SubaccountDelegationMissing);
    }
    None
}

/// Return `amount` to the reserve.
///
/// `deployed_aum` drops by `amount`, to no less than zero, and `local_aum`
/// grows by it. `deployed_principal` drops only by what this source owed
/// (`min(amount, principal)` for a subaccount, else `amount`), so a return
/// beyond one destination's principal never erases another's; the
/// subaccount's own principal drops by `amount`, to no less than zero. On
/// refusal nothing changes.
pub fn handler(
    vault: &mut VaultState,
    operator: Pubkey,
    vault_key: Pubkey,
    subaccount: &mut Option<Subaccount>,
    source: &TokenAccountState,
    amount: u64,
) -> (r: Result<(), ErrorCode>)
    requires
        return_refusal(*old(vault), operator, vault_key, *old(subaccount), *source, amount) is None
            ==> old(vault).local_aum + amount <= u64::MAX,
    ensures
        return_effect(
            *old(vault),
            *final(vault),
            *old(subaccount),
            *final(subaccount),
            operator,
            vault_key,
            *source,
            amount,
            r,
        ),
{
    match refusal(vault, operator, vault_key, subaccount, source, amount) {
        Some(e) => return Err(e),
        None => {},
    }
    if amount > vault.deployed_aum {
        vault.deployed_aum = 0;
    } else {
        vault.deployed_aum = vault.deployed_aum - amount;
    }
    vault.local_aum = vault.local_aum + amount;
    let repaid = match *subaccount {
        Some(sub) => if amount < sub.principal {
            amount
        } else {
            sub.principal
        },
        None => amount,
    };
    vault.deployed_principal = vault.deployed_principal.saturating_sub(repaid);
    match *subaccount {
        Some(sub) => {
            *subaccount = Some(
                Subaccount { principal: sub.principal.saturating_sub(amount), ..sub },
            );
        },
        None => {},
    }
    Ok(())
}

} // verus!
