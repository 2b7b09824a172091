//! The program's upgrade authority creates the program config.

use crate::key::Pubkey;
use crate::vault::errors::ErrorCode;
use crate::vault::state::config::ProgramConfig;
use vstd::prelude::*;

verus! {

/// Fill the freshly created `config` with `authority`, the key that may create
/// vaults from now on. `upgrade_authority_address` is what the program's
/// upgrade record holds; `NotProtocolAuthority` unless `signer` is it.
pub fn handler(
    config: &mut ProgramConfig,
    signer: Pubkey,
    upgrade_authority_address: Option<Pubkey>,
    authority: Pubkey,
    bump: u8,
) -> (r: Result<(), ErrorCode>)
    ensures
        if upgrade_authority_address != Some(signer) {
            r == Err::<(), ErrorCode>(ErrorCode::NotProtocolAuthority) && *final(config) == *old(
                config,
            )
        } else {
            r == Ok::<(), ErrorCode>(()) && *final(config) == (ProgramConfig { authority, bump })
        },
{
    match upgrade_authority_address {
        Some(upgrade_authority) => {
            if !upgrade_authority.same(&signer) {
                return Err(ErrorCode::NotProtocolAuthority);
            }
        },
        None => return Err(ErrorCode::NotProtocolAuthority),
    }
    config.init(authority, bump);
    Ok(())
}

} // verus!
