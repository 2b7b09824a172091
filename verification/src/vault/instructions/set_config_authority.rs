//! The vault-creation authority hands its role on.

use crate::key::{zero_bytes, Pubkey};
use crate::vault::errors::ErrorCode;
use crate::vault::state::config::ProgramConfig;
use vstd::prelude::*;

verus! {

/// Replace the config's authority with `new_authority`. `NotProtocolAuthority`
/// unless `signer` is the current authority, then `InvalidAuthority` for the
/// zero key.
pub fn handler(config: &mut ProgramConfig, signer: Pubkey, new_authority: Pubkey) -> (r: Result<
    (),
    ErrorCode,
>)
    ensures
        if signer != old(config).authority {
            r == Err::<(), ErrorCode>(ErrorCode::NotProtocolAuthority) && *final(config) == *old(
                config,
            )
        } else if new_authority@ == zero_bytes() {
            r == Err::<(), ErrorCode>(ErrorCode::InvalidAuthority) && *final(config) == *old(
                config,
            )
        } else {
            r == Ok::<(), ErrorCode>(()) && *final(config) == (ProgramConfig {
                authority: new_authority,
                ..*old(config)
            })
        },
{
    if !signer.same(&config.authority) {
        return Err(ErrorCode::NotProtocolAuthority);
    }
    if new_authority.is_zero() {
        return Err(ErrorCode::InvalidAuthority);
    }
    config.authority = new_authority;
    Ok(())
}

} // verus!
