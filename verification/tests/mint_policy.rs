use anchor_spl::token_2022::spl_token_2022::extension::metadata_pointer::MetadataPointer;
use anchor_spl::token_2022::spl_token_2022::extension::mint_close_authority::MintCloseAuthority;
use anchor_spl::token_2022::spl_token_2022::extension::{
    BaseStateWithExtensionsMut, ExtensionType, StateWithExtensionsMut,
};
use anchor_spl::token_2022::spl_token_2022::solana_program::program_pack::Pack;
use anchor_spl::token_2022::spl_token_2022::solana_program::pubkey::Pubkey as RuntimeKey;
use anchor_spl::token_2022::spl_token_2022::state::Mint as MintState;
use upshift_vault::key::Pubkey;
use upshift_vault::queue::errors::ErrorCode;
use upshift_vault::queue::mint_policy::{require_supported_deposit_mint, token_program_id};

fn key_of(k: &RuntimeKey) -> Pubkey {
    Pubkey::new_from_array(k.to_bytes())
}

fn check(owner: RuntimeKey, data: Vec<u8>) -> Result<(), ErrorCode> {
    require_supported_deposit_mint(&key_of(&owner), &data)
}

fn base_mint() -> MintState {
    MintState {
        mint_authority: Some(RuntimeKey::new_from_array([9; 32])).into(),
        supply: 0,
        decimals: 6,
        is_initialized: true,
        freeze_authority: None.into(),
    }
}

fn base_mint_bytes() -> Vec<u8> {
    let mut data = vec![0u8; MintState::LEN];
    Pack::pack_into_slice(&base_mint(), &mut data);
    data
}

fn mint_with_metadata_pointer() -> Vec<u8> {
    let len = ExtensionType::try_calculate_account_len::<MintState>(&[ExtensionType::MetadataPointer])
        .expect("length");
    let mut data = vec![0u8; len];
    {
        let mut state =
            StateWithExtensionsMut::<MintState>::unpack_uninitialized(&mut data).expect("fresh");
        state.init_extension::<MetadataPointer>(true).expect("extension");
        state.base = base_mint();
        state.pack_base();
        state.init_account_type().expect("account type");
    }
    data
}

fn mint_with_close_authority() -> Vec<u8> {
    let len =
        ExtensionType::try_calculate_account_len::<MintState>(&[ExtensionType::MintCloseAuthority])
            .expect("length");
    let mut data = vec![0u8; len];
    {
        let mut state =
            StateWithExtensionsMut::<MintState>::unpack_uninitialized(&mut data).expect("fresh");
        state.init_extension::<MintCloseAuthority>(true).expect("extension");
        state.base = base_mint();
        state.pack_base();
        state.init_account_type().expect("account type");
    }
    data
}

#[test]
fn a_classic_spl_mint_passes() {
    check(anchor_spl::token::ID, base_mint_bytes()).expect("classic SPL always passes");
}

#[test]
fn a_vanilla_token_2022_mint_passes() {
    check(anchor_spl::token_2022::ID, base_mint_bytes()).expect("no extensions is allowed");
}

#[test]
fn the_classic_program_id_is_the_token_program() {
    assert_eq!(token_program_id(), key_of(&anchor_spl::token::ID));
}

#[test]
fn a_metadata_pointer_is_on_the_allow_list() {
    check(anchor_spl::token_2022::ID, mint_with_metadata_pointer()).expect("metadata pointer");
}

#[test]
fn any_other_extension_is_refused() {
    let err = check(anchor_spl::token_2022::ID, mint_with_close_authority()).expect_err("refused");
    assert_eq!(err, ErrorCode::UnsupportedDepositMint);
}

#[test]
fn bytes_that_are_no_mint_are_refused() {
    let err = check(anchor_spl::token_2022::ID, vec![1, 2, 3]).expect_err("refused");
    assert_eq!(err, ErrorCode::UnsupportedDepositMint);
}

#[test]
fn a_classic_owner_is_not_parsed() {
    check(anchor_spl::token::ID, vec![1, 2, 3]).expect("the classic program owns only plain mints");
}
