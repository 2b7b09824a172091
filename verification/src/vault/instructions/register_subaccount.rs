//! The admin registers an operator destination.

use crate::key::Pubkey;
use crate::token::TokenAccountState;
use crate::vault::errors::ErrorCode;
use crate::vault::state::subaccount::Subaccount;
use crate::vault::state::vault::VaultState;
use vstd::prelude::*;

verus! {

/// Principal the new registration adopts: the vault's whole outstanding
/// principal for the first registration, nothing after.
pub open spec fn inherited_principal(vault: VaultState) -> u64 {
    if vault.subaccount_count == 0 {
        vault.deployed_principal
    } else {
        0
    }
}

/// Why registering `address` is refused, if it is.
pub open spec fn register_refusal(
    vault: VaultState,
    admin: Pubkey,
    vault_key: Pubkey,
    subaccount_ata: TokenAccountState,
    address: Pubkey,
) -> Option<ErrorCode> {
    if admin != vault.admin {
        Some(ErrorCode::NotAdmin)
    } else if !(subaccount_ata.delegate == Some(vault_key) && subaccount_ata.delegated_amount > 0
        && subaccount_ata.delegated_amount >= inherited_principal(vault)) {
        Some(ErrorCode::SubaccountDelegationMissing)
    } else if address == vault.operator {
        Some(ErrorCode::InvalidSubaccount)
    } else if vault.subaccount_count + 1 > u64::MAX {
        Some(ErrorCode::NumberOverflow)
    } else {
        None
    }
}

/// Register `address`, whose deposit-mint token account is `subaccount_ata`,
/// filling the fresh registry entry `subaccount`. Its token account must carry
/// the vault as delegate for a non-zero allowance covering what the entry
/// inherits; the operator itself cannot be registered. On success the entry
/// records the vault, the address, `bump` and the inherited principal, and the
/// vault counts one more registration; on refusal nothing changes.
pub fn handler(
    vault: &mut VaultState,
    admin: Pubkey,
    vault_key: Pubkey,
    subaccount: &mut Subaccount,
    subaccount_ata: &TokenAccountState,
    address: Pubkey,
    bump: u8,
) -> (r: Result<(), ErrorCode>)
    ensures
        match register_refusal(*old(vault), admin, vault_key, *subaccount_ata, address) {
            Some(e) => r == Err::<(), ErrorCode>(e) && *final(vault) == *old(vault)
                && *final(subaccount) == *old(subaccount),
            None => {
                &&& r == Ok::<(), ErrorCode>(())
                &&& *final(subaccount) == (Subaccount {
                    vault_state: vault_key,
                    address,
                    principal: inherited_principal(*old(vault)),
                    bump,
                })
                &&& *final(vault) == (VaultState {
                    subaccount_count: (old(vault).subaccount_count + 1) as u64,
                    ..*old(vault)
                })
            },
        },
{
    if !admin.same(&vault.admin) {
        return Err(ErrorCode::NotAdmin);
    }
    let inherited = if vault.subaccount_count == 0 {
        vault.deployed_principal
    } else {
        0
    };
    if !(subaccount_ata.delegates_at_least(&vault_key, 1) && subaccount_ata.delegated_amount
        >= inherited) {
        return Err(ErrorCode::SubaccountDelegationMissing);
    }
    if address.same(&vault.operator) {
        return Err(ErrorCode::InvalidSubaccount);
    }
    let count = match vault.subaccount_count.checked_add(1) {
        Some(c) => c,
        None => return Err(ErrorCode::NumberOverflow),
    };
    *subaccount = Subaccount { vault_state: vault_key, address, principal: inherited, bump };
    vault.subaccount_count = count;
    Ok(())
}

} // verus!
