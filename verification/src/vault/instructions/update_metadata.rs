//! The admin updates the share token's metadata.

use crate::key::Pubkey;
use crate::vault::errors::ErrorCode;
use crate::vault::state::vault::VaultState;
use vstd::prelude::*;

verus! {

/// The metadata record written for the share token.
#[derive(Debug)]
pub struct ShareTokenMetadata {
    pub name: String,
    pub symbol: String,
    pub uri: String,
    /// Always zero: shares carry no royalty.
    pub seller_fee_basis_points: u16,
}

/// The metadata to write for the share token, signed for by the vault.
/// `UnauthorizedAdmin` unless `admin` is the vault's admin, then `VaultPaused`
/// while the vault is paused. The record carries no royalty, creators,
/// collection or uses.
pub fn update_share_token_metadata(
    vault: &VaultState,
    admin: Pubkey,
    name: String,
    symbol: String,
    uri: String,
) -> (r: Result<ShareTokenMetadata, ErrorCode>)
    ensures
        admin != vault.admin ==> r == Err::<ShareTokenMetadata, ErrorCode>(
            ErrorCode::UnauthorizedAdmin,
        ),
        admin == vault.admin && vault.paused ==> r == Err::<ShareTokenMetadata, ErrorCode>(
            ErrorCode::VaultPaused,
        ),
        admin == vault.admin && !vault.paused ==> (r matches Ok(m) && m.name@ == name@ && m.symbol@
            == symbol@ && m.uri@ == uri@ && m.seller_fee_basis_points == 0),
{
    if !admin.same(&vault.admin) {
        return Err(ErrorCode::UnauthorizedAdmin);
    }
    if vault.paused {
        return Err(ErrorCode::VaultPaused);
    }
    Ok(ShareTokenMetadata { name, symbol, uri, seller_fee_basis_points: 0 })
}

} // verus!
