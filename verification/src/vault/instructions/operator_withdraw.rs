//! The operator moves vault assets out for external deployment.
//!
//! With subaccounts registered, the destination must be one of them and its
//! token account must keep the vault approved as delegate for everything it
//! owes, this amount included, so the principal stays recallable.

use crate::key::Pubkey;
use crate::token::TokenAccountState;
use crate::vault::errors::ErrorCode;
use crate::vault::state::subaccount::Subaccount;
use crate::vault::state::vault::VaultState;
use vstd::prelude::*;

verus! {

/// `a + b`, saturating at `u64::MAX`.
pub open spec fn saturating_add_u64(a: u64, b: u64) -> u64 {
    if a + b > u64::MAX {
        u64::MAX
    } else {
        (a + b) as u64
    }
}

/// The checks that run before the vault's AUM is touched.
pub open spec fn withdraw_precheck(
    vault: VaultState,
    operator: Pubkey,
    vault_key: Pubkey,
    subaccount: Option<Subaccount>,
    destination: TokenAccountState,
    amount: u64,
) -> Option<ErrorCode> {
    if operator != vault.operator {
        Some(ErrorCode::NotOperator)
    } else if amount == 0 {
        Some(ErrorCode::ZeroAmount)
    } else if (vault.subaccount_count > 0) != (subaccount is Some) {
        Some(ErrorCode::InvalidSubaccount)
    } else if subaccount is Some && !(destination.delegate == Some(vault_key)
        && destination.delegated_amount >= saturating_add_u64(
        subaccount->0.principal,
        amount,
    )) {
        Some(ErrorCode::SubaccountDelegationMissing)
    } else {
        None
    }
}

/// Why an operator withdrawal is refused, if it is.
pub open spec fn withdraw_refusal(
    vault: VaultState,
    operator: Pubkey,
    vault_key: Pubkey,
    subaccount: Option<Subaccount>,
    destination: TokenAccountState,
    amount: u64,
) -> Option<ErrorCode> {
    let pre = withdraw_precheck(vault, operator, vault_key, subaccount, destination, amount);
    if pre is Some {
        pre
    } else if vault.deployed_principal + amount > u64::MAX {
        Some(ErrorCode::NumberOverflow)
    } else if subaccount is Some && subaccount->0.principal + amount > u64::MAX {
        Some(ErrorCode::NumberOverflow)
    } else {
        None
    }
}

/// What an operator withdrawal returns and does to the vault and the
/// subaccount.
pub open spec fn withdraw_effect(
    old_vault: VaultState,
    new_vault: VaultState,
    old_subaccount: Option<Subaccount>,
    new_subaccount: Option<Subaccount>,
    operator: Pubkey,
    vault_key: Pubkey,
    destination: TokenAccountState,
    amount: u64,
    r: Result<(), ErrorCode>,
) -> bool {
    match withdraw_refusal(old_vault, operator, vault_key, old_subaccount, destination, amount) {
        Some(e) => r == Err::<(), ErrorCode>(e) && new_vault == old_vault && new_subaccount
            == old_subaccount,
        None => {
            &&& r == Ok::<(), ErrorCode>(())
            &&& new_vault == (VaultState {
                local_aum: if amount > old_vault.local_aum {
                    0
                } else {
                    (old_vault.local_aum - amount) as u64
                },
                deployed_aum: (old_vault.deployed_aum + amount) as u64,
                deployed_principal: (old_vault.deployed_principal + amount) as u64,
                ..old_vault
            })
            &&& new_subaccount == match old_subaccount {
                Some(s) => Some(Subaccount { principal: (s.principal + amount) as u64, ..s }),
                None => None,
            }
        },
    }
}

/// The checks that run before the vault's AUM is touched: the refusal of
/// [`withdraw_precheck`], if any.
pub fn precheck(
    vault: &VaultState,
    operator: Pubkey,
    vault_key: Pubkey,
    subaccount: &Option<Subaccount>,
    destination: &TokenAccountState,
    amount: u64,
) -> (r: Option<ErrorCode>)
    ensures
        r == withdraw_precheck(*vault, operator, vault_key, *subaccount, *destination, amount),
{
    if !operator.same(&vault.operator) {
        return Some(ErrorCode::NotOperator);
    }
    if amount == 0 {
        return Some(ErrorCode::ZeroAmount);
    }
    if vault.requires_subaccount() != subaccount.is_some() {
        return Some(ErrorCode::InvalidSubaccount);
    }
    match *subaccount {
        Some(sub) => {
            let needed = sub.principal.saturating_add(amount);
            if !destination.delegates_at_least(&vault_key, needed) {
                return Some(ErrorCode::SubaccountDelegationMissing);
            }
        },
        None => {},
    }
    None
}

/// Send `amount` from the reserve to the operator's destination: the
/// operator's own account, or the registered `subaccount` when the vault has
/// registrations (the two go together, else `InvalidSubaccount`).
///
/// `local_aum` drops by `amount`, to no less than zero: a reserve topped up
/// by a direct transfer can be deployed beyond what was recorded.
/// `deployed_aum`, `deployed_principal` and the subaccount's principal each
/// grow by `amount`. On refusal nothing changes.
pub fn handler(
    vault: &mut VaultState,
    operator: Pubkey,
    vault_key: Pubkey,
    subaccount: &mut Option<Subaccount>,
    destination: &TokenAccountState,
    amount: u64,
) -> (r: Result<(), ErrorCode>)
    requires
        withdraw_precheck(*old(vault), operator, vault_key, *old(subaccount), *destination, amount)
            is None ==> old(vault).deployed_aum + amount <= u64::MAX,
    ensures
        withdraw_effect(
            *old(vault),
            *final(vault),
            *old(subaccount),
            *final(subaccount),
            operator,
            vault_key,
            *destination,
            amount,
            r,
        ),
{
    match precheck(vault, operator, vault_key, subaccount, destination, amount) {
        Some(e) => return Err(e),
        None => {},
    }
    let local_aum = if amount > vault.local_aum {
        0
    } else {
        vault.local_aum - amount
    };
    let deployed_aum = vault.deployed_aum + amount;
    let deployed_principal = match vault.deployed_principal.checked_add(amount) {
        Some(v) => v,
        None => return Err(ErrorCode::NumberOverflow),
    };
    let new_sub = match *subaccount {
        Some(sub) => match sub.principal.checked_add(amount) {
            Some(p) => Some(Subaccount { principal: p, ..sub }),
            None => return Err(ErrorCode::NumberOverflow),
        },
        None => None,
    };
    vault.local_aum = local_aum;
    vault.deployed_aum = deployed_aum;
    vault.deployed_principal = deployed_principal;
    *subaccount = new_sub;
    Ok(())
}

} // verus!
