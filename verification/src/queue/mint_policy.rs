//! Which deposit mints a queue may be created for.
//!
//! A classic SPL mint always passes. A Token-2022 mint passes only if every
//! extension it carries is `MetadataPointer` or `TokenMetadata`: an
//! allow-list, so an extension nobody has reasoned about is refused.

use crate::key::Pubkey;
use anchor_spl::token_2022::spl_token_2022::extension::{
    BaseStateWithExtensions, StateWithExtensions,
};
use anchor_spl::token_2022::spl_token_2022::state::Mint as Token2022Mint;
use crate::queue::errors::ErrorCode;
use vstd::prelude::*;

verus! {

/// Token-2022's number for the `MetadataPointer` extension.
pub const EXTENSION_METADATA_POINTER: u16 = 18;

/// Token-2022's number for the `TokenMetadata` extension.
pub const EXTENSION_TOKEN_METADATA: u16 = 19;

/// The classic SPL token program's id, `TokenkegQfeZyiNwAJbNbGKPFXCWuBvf9Ss623VQ5DA`.
pub open spec fn spec_token_program_id() -> Seq<u8> {
    seq![
        6u8, 221, 246, 225, 215, 101, 161, 147, 217, 203, 225, 70, 206, 235, 121, 172, 28, 180,
        133, 237, 95, 91, 55, 145, 58, 140, 245, 133, 126, 255, 0, 169,
    ]
}

/// The classic SPL token program's id.
pub fn token_program_id() -> (r: Pubkey)
    ensures
        r@ == spec_token_program_id(),
{
    let r = Pubkey::new_from_array(
        [
            6u8, 221, 246, 225, 215, 101, 161, 147, 217, 203, 225, 70, 206, 235, 121, 172, 28,
            180, 133, 237, 95, 91, 55, 145, 58, 140, 245, 133, 126, 255, 0, 169,
        ],
    );
    assert(r@ =~= spec_token_program_id());
    r
}

/// The extension numbers that Token-2022 reads from the mint account data
/// `data`, in the order they are stored, or `None` when the data does not
/// unpack as a Token-2022 mint with well-formed extensions. A function of the
/// bytes alone.
pub uninterp spec fn token_2022_mint_extensions(data: Seq<u8>) -> Option<Seq<u16>>;

/// Calls `StateWithExtensions::<Mint>::unpack` of `spl-token-2022` (through
/// `anchor_spl::token_2022`) on `data` and, on success, its
/// `get_extension_types`, converting each `ExtensionType` to its `u16`
/// number. The contract claims only that the result is
/// [`token_2022_mint_extensions`] of the bytes.
#[verifier::external_body]
fn mint_extension_types(data: &[u8]) -> (r: Option<Vec<u16>>)
    ensures
        r is Some <==> token_2022_mint_extensions(data@) is Some,
        r matches Some(v) ==> token_2022_mint_extensions(data@) == Some(v@),
{
    let state = StateWithExtensions::<Token2022Mint>::unpack(data).ok()?;
    let types = state.get_extension_types().ok()?;
    Some(types.into_iter().map(u16::from).collect())
}

/// Whether every extension number in `extensions` is on the allow-list.
pub open spec fn only_metadata_extensions(extensions: Seq<u16>) -> bool {
    forall|i: int|
        0 <= i < extensions.len() ==> #[trigger] extensions[i] == EXTENSION_METADATA_POINTER
            || extensions[i] == EXTENSION_TOKEN_METADATA
}

/// Whether the mint owned by `owner` with account data `data` may back a queue.
pub open spec fn supported_deposit_mint(owner: Pubkey, data: Seq<u8>) -> bool {
    owner@ == spec_token_program_id() || (token_2022_mint_extensions(data) matches Some(
        extensions,
    ) && only_metadata_extensions(extensions))
}

/// Accept a classic SPL mint outright; accept a Token-2022 mint only when its
/// data unpacks and every extension is `MetadataPointer` or `TokenMetadata`.
/// `UnsupportedDepositMint` otherwise.
pub fn require_supported_deposit_mint(owner: &Pubkey, data: &[u8]) -> (r: Result<(), ErrorCode>)
    ensures
        r == if supported_deposit_mint(*owner, data@) {
            Ok(())
        } else {
            Err::<(), ErrorCode>(ErrorCode::UnsupportedDepositMint)
        },
{
    let classic = token_program_id();
    if owner.same(&classic) {
        return Ok(());
    }
    let extensions = match mint_extension_types(data) {
        Some(v) => v,
        None => return Err(ErrorCode::UnsupportedDepositMint),
    };
    if only_metadata(&extensions) {
        Ok(())
    } else {
        Err(ErrorCode::UnsupportedDepositMint)
    }
}

/// Whether every extension number in `extensions` is `MetadataPointer` or
/// `TokenMetadata`.
pub fn only_metadata(extensions: &Vec<u16>) -> (r: bool)
    ensures
        r == only_metadata_extensions(extensions@),
{
    let mut i: usize = 0;
    while i < extensions.len()
        invariant
            i <= extensions.len(),
            forall|j: int|
                0 <= j < i ==> #[trigger] extensions@[j] == EXTENSION_METADATA_POINTER
                    || extensions@[j] == EXTENSION_TOKEN_METADATA,
        decreases extensions.len() - i,
    {
        let e = extensions[i];
        if e != EXTENSION_METADATA_POINTER && e != EXTENSION_TOKEN_METADATA {
            assert(!only_metadata_extensions(extensions@)) by {
                assert(extensions@[i as int] == e);
            }
            return false;
        }
        i = i + 1;
    }
    true
}

} // verus!
