//! The program's upgrade authority resets the vault-creation authority.

use crate::key::{zero_bytes, Pubkey};
use crate::vault::errors::ErrorCode;
use crate::vault::state::config::ProgramConfig;
use vstd::prelude::*;

verus! {

/// Replace the config's authority with `new_authority`, on the upgrade
/// authority's signature. `NotProtocolAuthority` unless `signer` is
/// `upgrade_authority_address`, then `InvalidAuthority` for the zero key.
pub fn handler(
    config: &mut ProgramConfig,
    signer: Pubkey,
    upgrade_authority_address: Option<Pubkey>,
    new_authority: Pubkey,
) -> (r: Result<(), ErrorCode>)
    ensures
        if upgrade_authority_address != Some(signer) {
            r == Err::<(), ErrorCode>(ErrorCode::NotProtocolAuthority) && *final(config) == *old(
                config,
            )
        } else if new_authority@ == zero_bytes() {
            r == Err::<(), ErrorCode>(ErrorCode::InvalidAuthority) && *final(config) == *old(
                config,
            )
        } else {
            r == Ok::<(), ErrorCode>(()) && *final(config) == (ProgramConfig {
                authority: new_authority,
                ..*old(config)
            })
        },
{
    match upgrade_authority_address {
        Some(upgrade_authority) => {
            if !upgrade_authority.same(&signer) {
                return Err(ErrorCode::NotProtocolAuthority);
            }
        },
        None => return Err(ErrorCode::NotProtocolAuthority),
    }
    if new_authority.is_zero() {
        return Err(ErrorCode::InvalidAuthority);
    }
    config.authority = new_authority;
    Ok(())
}

} // verus!
