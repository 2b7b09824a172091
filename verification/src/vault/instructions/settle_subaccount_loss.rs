//! The admin writes down principal a destination will never return.

use crate::key::Pubkey;
use crate::vault::errors::ErrorCode;
use crate::vault::state::subaccount::Subaccount;
use crate::vault::state::vault::VaultState;
use vstd::prelude::*;

verus! {

/// What the destination owes beyond what sits in its token account:
/// `principal - balance`, at least zero.
pub open spec fn shortfall(principal: u64, balance: u64) -> int {
    if balance >= principal {
        0
    } else {
        principal - balance
    }
}

/// Write `amount` off `subaccount`'s principal, whose token account holds
/// `ata_balance`. `InvalidSubaccount` unless it belongs to the vault at
/// `vault_key`, then `NotAdmin`, `ZeroAmount`, and `LossExceedsShortfall`
/// when `amount` exceeds the shortfall: tokens still at the destination must
/// be returned, not written off. On success the subaccount's principal drops
/// by `amount` and `deployed_principal` by the same, to no less than zero;
/// `deployed_aum` is untouched.
pub fn handler(
    vault: &mut VaultState,
    admin: Pubkey,
    vault_key: Pubkey,
    subaccount: &mut Subaccount,
    ata_balance: u64,
    amount: u64,
) -> (r: Result<(), ErrorCode>)
    ensures
        ({
            let refusal = if old(subaccount).vault_state != vault_key {
                Some(ErrorCode::InvalidSubaccount)
            } else if admin != old(vault).admin {
                Some(ErrorCode::NotAdmin)
            } else if amount == 0 {
                Some(ErrorCode::ZeroAmount)
            } else if amount > shortfall(old(subaccount).principal, ata_balance) {
                Some(ErrorCode::LossExceedsShortfall)
            } else {
                None::<ErrorCode>
            };
            match refusal {
                Some(e) => r == Err::<(), ErrorCode>(e) && *final(vault) == *old(vault)
                    && *final(subaccount) == *old(subaccount),
                None => {
                    &&& r == Ok::<(), ErrorCode>(())
                    &&& *final(subaccount) == (Subaccount {
                        principal: (old(subaccount).principal - amount) as u64,
                        ..*old(subaccount)
                    })
                    &&& *final(vault) == (VaultState {
                        deployed_principal: if amount > old(vault).deployed_principal {
                            0
                        } else {
                            (old(vault).deployed_principal - amount) as u64
                        },
                        ..*old(vault)
                    })
                },
            }
        }),
{
    if !subaccount.vault_state.same(&vault_key) {
        return Err(ErrorCode::InvalidSubaccount);
    }
    if !admin.same(&vault.admin) {
        return Err(ErrorCode::NotAdmin);
    }
    if amount == 0 {
        return Err(ErrorCode::ZeroAmount);
    }
    let short = subaccount.principal.saturating_sub(ata_balance);
    if amount > short {
        return Err(ErrorCode::LossExceedsShortfall);
    }
    subaccount.principal = subaccount.principal - amount;
    vault.deployed_principal = vault.deployed_principal.saturating_sub(amount);
    Ok(())
}

} // verus!
