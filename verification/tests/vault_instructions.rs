use upshift_vault::account::AccountFacts;
use upshift_vault::key::Pubkey;
use upshift_vault::vault::errors::ErrorCode;
use upshift_vault::vault::instructions::{
    accept_admin_nomination, attach_withdrawal_queue, close_vault, deposit,
    detach_withdrawal_queue, initialize, nominate_admin, operator_update_aum, pause, redeem,
    set_withdrawal_fee, unpause,
};
use upshift_vault::vault::instructions::initialize::{VaultAddresses, VaultRoles};
use upshift_vault::vault::instructions::redeem::{ceil_div, RedeemOutcome};
use upshift_vault::vault::state::config::ProgramConfig;
use upshift_vault::vault::state::nominated_admin::{NominatedAdmin, ONE_DAY_IN_SECONDS};
use upshift_vault::vault::state::vault::{
    withdrawal_queue_pda, withdrawal_queue_program_id, VaultState, DEFAULT_AUM_LIMIT_BPS,
};

fn pk(b: u8) -> Pubkey {
    Pubkey::new_from_array([b; 32])
}

const ADMIN: u8 = 0xA1;
const OPERATOR: u8 = 0x0B;

fn vault() -> VaultState {
    VaultState {
        admin: pk(ADMIN),
        operator: pk(OPERATOR),
        share_offset: 1_000,
        ..Default::default()
    }
}

// ---- deposit ----

#[test]
fn a_first_deposit_at_the_minimum_mints_one_to_one() {
    let mut v = vault();
    assert_eq!(deposit::handler(&mut v, 0, 6, 100_000), Ok(100_000));
    assert_eq!(v.local_aum, 100_000);
}

#[test]
fn a_first_deposit_below_the_minimum_is_refused() {
    let mut v = vault();
    assert_eq!(deposit::handler(&mut v, 0, 6, 99_999), Err(ErrorCode::InsufficientAmount));
    assert_eq!(v.local_aum, 0, "a refusal leaves the vault as it was");
}

#[test]
fn a_deposit_into_a_funded_vault_is_priced_by_the_offset_formula() {
    let mut v = VaultState { local_aum: 1_000_000, ..vault() };
    // 500_000 * (1_000_000 + 1_000) / (1_000_000 + 1_000), never below pro-rata.
    assert_eq!(deposit::handler(&mut v, 1_000_000, 6, 500_000), Ok(500_000));
    assert_eq!(v.local_aum, 1_500_000);
}

#[test]
fn deposit_refusals() {
    let mut v = vault();
    assert_eq!(deposit::handler(&mut v, 0, 6, 0), Err(ErrorCode::ZeroAmount));
    let mut paused = VaultState { paused: true, ..vault() };
    assert_eq!(deposit::handler(&mut paused, 0, 6, 1_000_000), Err(ErrorCode::VaultPaused));
    assert_eq!(
        deposit::handler_checked(&mut v, 0, 6, 100_000, 100_001),
        Err(ErrorCode::SlippageExceeded)
    );
    let mut empty_priced = VaultState { local_aum: 0, ..vault() };
    assert_eq!(
        deposit::handler(&mut empty_priced, 1_000, 6, 1_000),
        Err(ErrorCode::SharePriceUndefined)
    );
    let mut full = VaultState { local_aum: u64::MAX, ..vault() };
    assert_eq!(deposit::handler(&mut full, u64::MAX, 6, 1), Err(ErrorCode::NumberOverflow));
    assert_eq!(full.local_aum, u64::MAX);
}

// ---- redeem ----

fn funded() -> VaultState {
    VaultState { local_aum: 1_000_000, withdrawal_fee: 10_000, ..vault() }
}

#[test]
fn a_redemption_pays_the_fee_and_the_rest() {
    let mut v = funded();
    let paid = redeem::handler(&mut v, 1_000_000, pk(0x55), 100_000).expect("redeem");
    assert_eq!(paid, RedeemOutcome { assets: 100_000, fees: 1_000, final_amount: 99_000 });
    assert_eq!(paid.fees + paid.final_amount, paid.assets);
    assert_eq!(v.local_aum, 900_000);
}

#[test]
fn redeem_checked_refuses_below_the_stated_payout() {
    let mut v = funded();
    assert_eq!(
        redeem::handler_checked(&mut v, 1_000_000, pk(0x55), 100_000, 99_001),
        Err(ErrorCode::SlippageExceeded)
    );
    assert_eq!(v.local_aum, 1_000_000);
    assert!(redeem::handler_checked(&mut v, 1_000_000, pk(0x55), 100_000, 99_000).is_ok());
}

#[test]
fn an_attached_queue_is_the_only_redeemer() {
    let queue = pk(0x77);
    let mut v = VaultState { withdrawal_queue_authority: queue, ..funded() };
    assert_eq!(
        redeem::handler(&mut v, 1_000_000, pk(0x55), 100_000),
        Err(ErrorCode::WithdrawalQueueRequired)
    );
    assert!(redeem::handler(&mut v, 1_000_000, queue, 100_000).is_ok());
}

#[test]
fn redeem_refusals() {
    let mut v = funded();
    assert_eq!(redeem::handler(&mut v, 1_000_000, pk(1), 0), Err(ErrorCode::ZeroAmount));
    let mut paused = VaultState { paused: true, ..funded() };
    assert_eq!(redeem::handler(&mut paused, 1_000_000, pk(1), 10), Err(ErrorCode::VaultPaused));
    let mut deployed = VaultState { local_aum: 10, deployed_aum: 999_990, ..funded() };
    assert_eq!(
        redeem::handler(&mut deployed, 1_000_000, pk(1), 100_000),
        Err(ErrorCode::NotEnoughLiquidity)
    );
    let mut nothing = VaultState { local_aum: 0, ..funded() };
    assert_eq!(
        redeem::handler(&mut nothing, 1_000_000, pk(1), 10),
        Err(ErrorCode::SharePriceUndefined)
    );
}

#[test]
fn a_deposit_and_its_redemption_never_gain() {
    let mut v = VaultState { local_aum: 3_000_007, ..vault() };
    let supply = 2_000_000;
    let minted = deposit::handler(&mut v, supply, 6, 1_234_567).expect("deposit");
    let paid = redeem::handler(&mut v, supply + minted, pk(9), minted).expect("redeem");
    assert!(paid.assets <= 1_234_567, "{} > deposited", paid.assets);
    assert_eq!(v.share_offset, 1_000, "the offset never moves");
}

#[test]
fn ceil_div_rounds_up() {
    assert_eq!(ceil_div(10, 3), Some(4));
    assert_eq!(ceil_div(9, 3), Some(3));
    assert_eq!(ceil_div(0, 3), Some(0));
    assert_eq!(ceil_div(1, 0), None);
    assert_eq!(ceil_div(u128::MAX, 2), None);
}

// ---- admin settings ----

#[test]
fn the_withdrawal_fee_stays_below_ten_percent() {
    let mut v = vault();
    assert_eq!(set_withdrawal_fee::handler(&mut v, pk(ADMIN), 99_999), Ok(()));
    assert_eq!(v.withdrawal_fee, 99_999);
    assert_eq!(
        set_withdrawal_fee::handler(&mut v, pk(ADMIN), 100_000),
        Err(ErrorCode::WithdrawalFeeTooHigh)
    );
    assert_eq!(set_withdrawal_fee::handler(&mut v, pk(2), 1), Err(ErrorCode::NotAdmin));
    assert_eq!(v.withdrawal_fee, 99_999);
}

#[test]
fn pause_and_unpause_are_admin_only() {
    let mut v = vault();
    assert_eq!(pause::handler(&mut v, pk(2)), Err(ErrorCode::NotAdmin));
    assert!(!v.paused);
    assert_eq!(pause::handler(&mut v, pk(ADMIN)), Ok(()));
    assert!(v.paused);
    assert_eq!(unpause::handler(&mut v, pk(ADMIN)), Ok(()));
    assert!(!v.paused);
}

#[test]
fn aum_reports_stay_within_the_basis_point_bounds() {
    let mut v = VaultState {
        deployed_aum: 1_000_000,
        aum_increase_limit: 20,
        aum_decrease_limit: 20,
        ..vault()
    };
    assert_eq!(operator_update_aum::handler(&mut v, pk(OPERATOR), 1_002_001), Err(ErrorCode::AumIncreaseTooBig));
    assert_eq!(operator_update_aum::handler(&mut v, pk(OPERATOR), 997_999), Err(ErrorCode::AumDecreaseTooBig));
    assert_eq!(operator_update_aum::handler(&mut v, pk(ADMIN), 1_000_000), Err(ErrorCode::NotOperator));
    assert_eq!(operator_update_aum::handler(&mut v, pk(OPERATOR), 1_002_000), Ok(()));
    assert_eq!(v.deployed_aum, 1_002_000);
}

#[test]
fn close_vault_needs_an_empty_vault() {
    let v = vault();
    assert_eq!(close_vault::handler(&v, pk(ADMIN), 1, 0), Err(ErrorCode::VaultNotEmpty));
    assert_eq!(close_vault::handler(&v, pk(ADMIN), 0, 1), Err(ErrorCode::VaultNotEmpty));
    assert_eq!(close_vault::handler(&v, pk(2), 0, 0), Err(ErrorCode::NotAdmin));
    assert_eq!(close_vault::handler(&v, pk(ADMIN), 0, 0), Ok(()));
}

// ---- admin rotation ----

#[test]
fn a_nomination_is_accepted_by_the_nominee_within_a_day() {
    let mut v = vault();
    let mut nomination = NominatedAdmin::empty();
    assert_eq!(nominate_admin::handler(&v, pk(2), &mut nomination, pk(3), 1_000), Err(ErrorCode::NotAdmin));
    assert_eq!(nominate_admin::handler(&v, pk(ADMIN), &mut nomination, pk(3), 1_000), Ok(()));
    assert_eq!(nomination.nominated_admin(), pk(3));
    assert_eq!(nomination.valid_until(), 1_000 + ONE_DAY_IN_SECONDS);

    assert_eq!(
        accept_admin_nomination::handler(&mut v, &nomination, pk(4), 1_001),
        Err(ErrorCode::InvalidNominatedAdmin)
    );
    assert_eq!(
        accept_admin_nomination::handler(&mut v, &nomination, pk(3), 1_000 + ONE_DAY_IN_SECONDS),
        Err(ErrorCode::NominationExpired)
    );
    assert_eq!(v.admin, pk(ADMIN));
    assert_eq!(
        accept_admin_nomination::handler(&mut v, &nomination, pk(3), 999 + ONE_DAY_IN_SECONDS),
        Ok(())
    );
    assert_eq!(v.admin, pk(3));
}

// ---- the withdrawal queue ----

#[test]
fn attaching_accepts_only_this_vaults_queue_address() {
    let vault_key = pk(0x40);
    let queue_key = withdrawal_queue_pda(&vault_key).expect("an address exists");
    assert_ne!(queue_key, vault_key);
    let genuine = AccountFacts { key: queue_key, owner: withdrawal_queue_program_id(), data_is_empty: false };

    let mut v = vault();
    let elsewhere = AccountFacts { key: withdrawal_queue_pda(&pk(0x41)).unwrap(), ..genuine };
    assert_eq!(
        attach_withdrawal_queue::handler(&mut v, pk(ADMIN), vault_key, &elsewhere),
        Err(ErrorCode::InvalidWithdrawalQueueAuthority)
    );
    let foreign = AccountFacts { owner: pk(0x99), ..genuine };
    assert_eq!(
        attach_withdrawal_queue::handler(&mut v, pk(ADMIN), vault_key, &foreign),
        Err(ErrorCode::InvalidWithdrawalQueueAuthority)
    );
    let uninitialized = AccountFacts { data_is_empty: true, ..genuine };
    assert_eq!(
        attach_withdrawal_queue::handler(&mut v, pk(ADMIN), vault_key, &uninitialized),
        Err(ErrorCode::InvalidWithdrawalQueueAuthority)
    );
    assert_eq!(
        attach_withdrawal_queue::handler(&mut v, pk(2), vault_key, &genuine),
        Err(ErrorCode::NotAdmin)
    );
    assert_eq!(v.withdrawal_queue(), None);

    assert_eq!(attach_withdrawal_queue::handler(&mut v, pk(ADMIN), vault_key, &genuine), Ok(()));
    assert_eq!(v.withdrawal_queue(), Some(queue_key));
    assert_eq!(
        attach_withdrawal_queue::handler(&mut v, pk(ADMIN), vault_key, &genuine),
        Err(ErrorCode::WithdrawalQueueAlreadyAttached)
    );

    assert_eq!(
        detach_withdrawal_queue::handler(&mut v, pk(ADMIN), pk(0x66)),
        Err(ErrorCode::WrongWithdrawalQueueSigner)
    );
    assert_eq!(detach_withdrawal_queue::handler(&mut v, pk(ADMIN), queue_key), Ok(queue_key));
    assert_eq!(v.withdrawal_queue(), None);
    assert_eq!(
        detach_withdrawal_queue::handler(&mut v, pk(ADMIN), queue_key),
        Err(ErrorCode::WithdrawalQueueNotAttached)
    );
}

// ---- creation ----

#[test]
fn initialize_fixes_roles_and_a_permitted_offset() {
    let config = ProgramConfig { authority: pk(0xC0), bump: 1 };
    let addresses = VaultAddresses { share_mint: pk(0x51), deposit_mint: pk(0x52), pda_bump: 7 };
    let roles = VaultRoles {
        admin: pk(ADMIN),
        operator: pk(OPERATOR),
        fee_recipient: pk(0xFE),
        vault_version: 2,
        share_offset: 10_000,
    };
    let mut v = VaultState::default();
    assert_eq!(
        initialize::handler(&config, pk(0xC1), &mut v, addresses, roles),
        Err(ErrorCode::NotProtocolAuthority)
    );
    assert_eq!(
        initialize::handler(&config, pk(0xC0), &mut v, addresses, VaultRoles { share_offset: 5_000, ..roles }),
        Err(ErrorCode::InvalidShareOffset)
    );
    assert_eq!(initialize::handler(&config, pk(0xC0), &mut v, addresses, roles), Ok(()));
    assert_eq!((v.admin, v.operator, v.fee_recipient), (pk(ADMIN), pk(OPERATOR), pk(0xFE)));
    assert_eq!((v.share_mint, v.deposit_mint, v.pda_bump, v.vault_version), (pk(0x51), pk(0x52), 7, 2));
    assert_eq!(v.share_offset(), 10_000);
    assert_eq!((v.aum_increase_limit, v.aum_decrease_limit), (DEFAULT_AUM_LIMIT_BPS, DEFAULT_AUM_LIMIT_BPS));
    assert!(!v.paused);
}

#[test]
fn an_opening_deposit_into_leftover_assets_is_refused_as_too_small() {
    // No shares outstanding but assets left behind: the advertised minimum
    // prices to fewer shares than the vault may open with.
    let mut v = VaultState { local_aum: 1_000_000_000_000_000, ..vault() };
    let minimum = v.min_first_deposit(6);
    assert_eq!(deposit::handler(&mut v, 0, 6, minimum), Err(ErrorCode::InsufficientAmount));
    assert_eq!(v.local_aum, 1_000_000_000_000_000);
}

#[test]
fn attaching_then_detaching_restores_the_vault() {
    let vault_key = pk(0x44);
    let queue_key = withdrawal_queue_pda(&vault_key).expect("an address exists");
    assert_ne!(queue_key, Pubkey::default(), "a derived address is never the zero key");
    let genuine = AccountFacts { key: queue_key, owner: withdrawal_queue_program_id(), data_is_empty: false };
    let mut v = vault();
    assert_eq!(detach_withdrawal_queue::handler(&mut v, pk(ADMIN), queue_key), Err(ErrorCode::WithdrawalQueueNotAttached));
    assert_eq!(attach_withdrawal_queue::handler(&mut v, pk(ADMIN), vault_key, &genuine), Ok(()));
    assert_eq!(detach_withdrawal_queue::handler(&mut v, pk(ADMIN), pk(0x45)), Err(ErrorCode::WrongWithdrawalQueueSigner));
    assert_eq!(v.withdrawal_queue(), Some(queue_key));
    assert_eq!(detach_withdrawal_queue::handler(&mut v, pk(ADMIN), queue_key), Ok(queue_key));
    assert_eq!(v.withdrawal_queue_authority, Pubkey::default());
    assert_eq!((v.admin, v.operator, v.share_offset, v.paused), (pk(ADMIN), pk(OPERATOR), 1_000, false));
}
