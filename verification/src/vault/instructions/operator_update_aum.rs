//! The operator reports the value of its external deployment.

use crate::key::Pubkey;
use crate::vault::errors::ErrorCode;
use crate::vault::state::vault::{VaultState, BPS_DENOMINATOR};
use vstd::prelude::*;

verus! {

/// Why a report of `new_aum` is refused, if it is: it may fall at most
/// `aum_decrease_limit` and rise at most `aum_increase_limit` basis points
/// from the current `deployed_aum`, both bounds inclusive.
pub open spec fn update_aum_refusal(vault: VaultState, operator: Pubkey, new_aum: u64) -> Option<
    ErrorCode,
> {
    let scaled = new_aum * BPS_DENOMINATOR;
    if operator != vault.operator {
        Some(ErrorCode::NotOperator)
    } else if scaled < (BPS_DENOMINATOR - vault.aum_decrease_limit) * vault.deployed_aum {
        Some(ErrorCode::AumDecreaseTooBig)
    } else if scaled > (BPS_DENOMINATOR + vault.aum_increase_limit) * vault.deployed_aum {
        Some(ErrorCode::AumIncreaseTooBig)
    } else {
        None
    }
}

/// Replace `deployed_aum` with `new_aum` when it lies within the vault's
/// basis-point bounds of the current value. On refusal nothing changes.
pub fn handler(vault: &mut VaultState, operator: Pubkey, new_aum: u64) -> (r: Result<(), ErrorCode>)
    requires
        operator == old(vault).operator ==> old(vault).aum_decrease_limit <= BPS_DENOMINATOR
            && old(vault).aum_increase_limit <= u32::MAX - BPS_DENOMINATOR,
    ensures
        match update_aum_refusal(*old(vault), operator, new_aum) {
            Some(e) => r == Err::<(), ErrorCode>(e) && *final(vault) == *old(vault),
            None => r == Ok::<(), ErrorCode>(()) && *final(vault) == (VaultState {
                deployed_aum: new_aum,
                ..*old(vault)
            }),
        },
{
    if !operator.same(&vault.operator) {
        return Err(ErrorCode::NotOperator);
    }
    let decrease_limit = (BPS_DENOMINATOR - vault.aum_decrease_limit) as u128;
    let increase_limit = (BPS_DENOMINATOR + vault.aum_increase_limit) as u128;
    let scaled_new_aum = (new_aum as u128) * (BPS_DENOMINATOR as u128);
    let deployed_aum = vault.deployed_aum as u128;
    assert(decrease_limit * deployed_aum <= (u32::MAX as int) * (u64::MAX as int)) by (nonlinear_arith)
        requires
            decrease_limit <= u32::MAX,
            deployed_aum <= u64::MAX,
    ;
    assert(increase_limit * deployed_aum <= (u32::MAX as int) * (u64::MAX as int)) by (nonlinear_arith)
        requires
            increase_limit <= u32::MAX,
            deployed_aum <= u64::MAX,
    ;
    if scaled_new_aum < decrease_limit * deployed_aum {
        return Err(ErrorCode::AumDecreaseTooBig);
    }
    if scaled_new_aum > increase_limit * deployed_aum {
        return Err(ErrorCode::AumIncreaseTooBig);
    }
    vault.deployed_aum = new_aum;
    Ok(())
}

} // verus!
