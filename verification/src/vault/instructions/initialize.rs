//! The protocol authority creates a vault.

use crate::key::Pubkey;
use crate::vault::errors::ErrorCode;
use crate::vault::state::config::ProgramConfig;
use crate::vault::state::vault::{valid_share_offset, VaultState, DEFAULT_AUM_LIMIT_BPS};
use vstd::prelude::*;

verus! {

/// The roles and offset a new vault is created with.
#[derive(Clone, Copy, Debug)]
pub struct VaultRoles {
    pub admin: Pubkey,
    pub operator: Pubkey,
    pub fee_recipient: Pubkey,
    pub vault_version: u8,
    /// Permanent virtual-share offset; a power of ten from 1 000 to 1 000 000.
    pub share_offset: u64,
}

/// The accounts a new vault is bound to.
#[derive(Clone, Copy, Debug)]
pub struct VaultAddresses {
    pub share_mint: Pubkey,
    pub deposit_mint: Pubkey,
    /// Bump of the vault state's address.
    pub pda_bump: u8,
}

/// Fill the freshly created `vault`. `NotProtocolAuthority` unless `signer` is
/// the config's authority, then `InvalidShareOffset` unless the offset is a
/// permitted power of ten. The new vault has no fee, zero deployed AUM, the
/// default AUM limits, and is not paused.
pub fn handler(
    config: &ProgramConfig,
    signer: Pubkey,
    vault: &mut VaultState,
    addresses: VaultAddresses,
    roles: VaultRoles,
) -> (r: Result<(), ErrorCode>)
    ensures
        if signer != config.authority {
            r == Err::<(), ErrorCode>(ErrorCode::NotProtocolAuthority) && *final(vault) == *old(
                vault,
            )
        } else if !valid_share_offset(roles.share_offset as u128) {
            r == Err::<(), ErrorCode>(ErrorCode::InvalidShareOffset) && *final(vault) == *old(
                vault,
            )
        } else {
            r == Ok::<(), ErrorCode>(()) && *final(vault) == (VaultState {
                operator: roles.operator,
                admin: roles.admin,
                share_mint: addresses.share_mint,
                deposit_mint: addresses.deposit_mint,
                fee_recipient: roles.fee_recipient,
                withdrawal_fee: 0,
                deployed_aum: 0,
                aum_increase_limit: DEFAULT_AUM_LIMIT_BPS,
                aum_decrease_limit: DEFAULT_AUM_LIMIT_BPS,
                paused: false,
                pda_bump: addresses.pda_bump,
                vault_version: roles.vault_version,
                share_offset: roles.share_offset,
                ..*old(vault)
            })
        },
{
    if !signer.same(&config.authority) {
        return Err(ErrorCode::NotProtocolAuthority);
    }
    if !VaultState::is_valid_share_offset(roles.share_offset as u128) {
        return Err(ErrorCode::InvalidShareOffset);
    }
    vault.init(
        roles.operator,
        roles.admin,
        addresses.share_mint,
        addresses.deposit_mint,
        roles.fee_recipient,
        0,
        addresses.pda_bump,
        roles.vault_version,
        roles.share_offset,
    );
    Ok(())
}

} // verus!
