use upshift_vault::account::AccountFacts;
use upshift_vault::key::Pubkey;
use upshift_vault::token::TokenAccountState;
use upshift_vault::vault::errors::ErrorCode;
use upshift_vault::vault::instructions::update_metadata::update_share_token_metadata;
use upshift_vault::vault::instructions::{
    deregister_subaccount, initialize_config, operator_deposit, operator_withdraw,
    override_config_authority, register_subaccount, set_aum_limits, set_config_authority,
    set_operator, set_operator_subaccount, set_withdrawal_queue_authority, settle_subaccount_loss,
};
use upshift_vault::vault::state::config::ProgramConfig;
use upshift_vault::vault::state::subaccount::Subaccount;
use upshift_vault::vault::state::vault::{
    withdrawal_queue_pda, withdrawal_queue_program_id, VaultState,
};

fn pk(b: u8) -> Pubkey {
    Pubkey::new_from_array([b; 32])
}

const ADMIN: u8 = 0xA1;
const OPERATOR: u8 = 0x0B;
const VAULT_KEY: u8 = 0x77;
const CUSTODY: u8 = 0xC5;

fn vault() -> VaultState {
    VaultState { admin: pk(ADMIN), operator: pk(OPERATOR), local_aum: 1_000, ..Default::default() }
}

fn ata(owner: u8, delegate: Option<Pubkey>, delegated_amount: u64, amount: u64) -> TokenAccountState {
    TokenAccountState { mint: pk(0x50), owner: pk(owner), amount, delegate, delegated_amount }
}

fn no_subaccount() -> Subaccount {
    Subaccount { vault_state: Pubkey::default(), address: Pubkey::default(), principal: 0, bump: 0 }
}

#[test]
fn aum_limits_are_at_most_the_denominator() {
    let mut v = vault();
    assert_eq!(set_aum_limits::handler(&mut v, pk(ADMIN), 10_001, 5), Err(ErrorCode::AumLimitTooHigh));
    assert_eq!(set_aum_limits::handler(&mut v, pk(ADMIN), 5, 10_001), Err(ErrorCode::AumLimitTooHigh));
    assert_eq!(set_aum_limits::handler(&mut v, pk(ADMIN), 10_000, 0), Ok(()));
    assert_eq!((v.aum_increase_limit, v.aum_decrease_limit), (10_000, 0));
}

#[test]
fn the_operator_is_never_zero_nor_the_subaccount() {
    let mut v = VaultState { operator_subaccount: pk(CUSTODY), ..vault() };
    assert_eq!(set_operator::handler(&mut v, pk(ADMIN), Pubkey::default()), Err(ErrorCode::InvalidAuthority));
    assert_eq!(set_operator::handler(&mut v, pk(ADMIN), pk(CUSTODY)), Err(ErrorCode::InvalidOperatorSubaccount));
    assert_eq!(set_operator::handler(&mut v, pk(ADMIN), pk(0x0C)), Ok(()));
    assert_eq!(v.operator, pk(0x0C));
}

#[test]
fn a_subaccount_must_delegate_to_the_vault_before_it_is_named() {
    let mut v = vault();
    let unapproved = ata(CUSTODY, None, 0, 0);
    assert_eq!(
        set_operator_subaccount::handler(&mut v, pk(ADMIN), pk(VAULT_KEY), Some(unapproved), pk(CUSTODY)),
        Err(ErrorCode::SubaccountDelegationMissing)
    );
    assert_eq!(
        set_operator_subaccount::handler(&mut v, pk(ADMIN), pk(VAULT_KEY), None, pk(CUSTODY)),
        Err(ErrorCode::InvalidOperatorSubaccount)
    );
    let approved = ata(CUSTODY, Some(pk(VAULT_KEY)), 1, 0);
    assert_eq!(
        set_operator_subaccount::handler(&mut v, pk(ADMIN), pk(VAULT_KEY), Some(approved), pk(OPERATOR)),
        Err(ErrorCode::InvalidOperatorSubaccount)
    );
    assert_eq!(
        set_operator_subaccount::handler(&mut v, pk(ADMIN), pk(VAULT_KEY), Some(approved), pk(CUSTODY)),
        Ok(())
    );
    assert_eq!(v.operator_subaccount, pk(CUSTODY));
    assert_eq!(
        set_operator_subaccount::handler(&mut v, pk(ADMIN), pk(VAULT_KEY), None, Pubkey::default()),
        Ok(())
    );
    assert_eq!(v.operator_subaccount, Pubkey::default());
}

#[test]
fn a_registered_subaccount_carries_what_it_owes_and_bounds_deployments() {
    let mut v = VaultState { deployed_principal: 300, ..vault() };
    let mut record = no_subaccount();
    let short = ata(CUSTODY, Some(pk(VAULT_KEY)), 299, 0);
    assert_eq!(
        register_subaccount::handler(&mut v, pk(ADMIN), pk(VAULT_KEY), &mut record, &short, pk(CUSTODY), 4),
        Err(ErrorCode::SubaccountDelegationMissing),
        "the first registration inherits the outstanding principal"
    );
    let covering = ata(CUSTODY, Some(pk(VAULT_KEY)), 1_000, 0);
    assert_eq!(
        register_subaccount::handler(&mut v, pk(ADMIN), pk(VAULT_KEY), &mut record, &covering, pk(OPERATOR), 4),
        Err(ErrorCode::InvalidSubaccount)
    );
    assert_eq!(
        register_subaccount::handler(&mut v, pk(ADMIN), pk(VAULT_KEY), &mut record, &covering, pk(CUSTODY), 4),
        Ok(())
    );
    assert_eq!((record.vault_state, record.address, record.principal, record.bump), (pk(VAULT_KEY), pk(CUSTODY), 300, 4));
    assert_eq!(v.subaccount_count, 1);

    // Deploying needs the registration, and a delegation covering principal + amount.
    let mut none = None;
    assert_eq!(
        operator_withdraw::handler(&mut v, pk(OPERATOR), pk(VAULT_KEY), &mut none, &covering, 100),
        Err(ErrorCode::InvalidSubaccount)
    );
    let mut sub = Some(record);
    let tight = ata(CUSTODY, Some(pk(VAULT_KEY)), 399, 0);
    assert_eq!(
        operator_withdraw::handler(&mut v, pk(OPERATOR), pk(VAULT_KEY), &mut sub, &tight, 100),
        Err(ErrorCode::SubaccountDelegationMissing)
    );
    assert_eq!(operator_withdraw::handler(&mut v, pk(0x0C), pk(VAULT_KEY), &mut sub, &covering, 100), Err(ErrorCode::NotOperator));
    assert_eq!(operator_withdraw::handler(&mut v, pk(OPERATOR), pk(VAULT_KEY), &mut sub, &covering, 0), Err(ErrorCode::ZeroAmount));
    assert_eq!(operator_withdraw::handler(&mut v, pk(OPERATOR), pk(VAULT_KEY), &mut sub, &covering, 100), Ok(()));
    assert_eq!((v.local_aum, v.deployed_aum, v.deployed_principal), (900, 100, 400));
    assert_eq!(sub.unwrap().principal, 400);

    // Returning pulls against the delegation and restores the books.
    assert_eq!(
        operator_deposit::handler(&mut v, pk(OPERATOR), pk(VAULT_KEY), &mut sub, &ata(CUSTODY, None, 0, 500), 100),
        Err(ErrorCode::SubaccountDelegationMissing)
    );
    assert_eq!(operator_deposit::handler(&mut v, pk(OPERATOR), pk(VAULT_KEY), &mut sub, &covering, 100), Ok(()));
    assert_eq!((v.local_aum, v.deployed_aum, v.deployed_principal), (1_000, 0, 300));
    assert_eq!(sub.unwrap().principal, 300);

    // A subaccount still owed principal cannot be removed.
    let owed = sub.unwrap();
    assert_eq!(deregister_subaccount::handler(&mut v, pk(ADMIN), pk(VAULT_KEY), &owed), Err(ErrorCode::SubaccountNotEmpty));
    let foreign = Subaccount { vault_state: pk(0x78), ..owed };
    assert_eq!(deregister_subaccount::handler(&mut v, pk(ADMIN), pk(VAULT_KEY), &foreign), Err(ErrorCode::InvalidSubaccount));
}

#[test]
fn an_unconfigured_vault_deploys_to_the_operator() {
    let mut v = vault();
    let mut none = None;
    let own = ata(OPERATOR, None, 0, 0);
    assert_eq!(operator_withdraw::handler(&mut v, pk(OPERATOR), pk(VAULT_KEY), &mut none, &own, 1_500), Ok(()));
    assert_eq!(v.local_aum, 0, "a reserve topped up by donation deploys beyond the record");
    assert_eq!(v.deployed_aum, 1_500);
    assert_eq!(operator_deposit::handler(&mut v, pk(OPERATOR), pk(VAULT_KEY), &mut none, &own, 2_000), Ok(()));
    assert_eq!((v.local_aum, v.deployed_aum, v.deployed_principal), (2_000, 0, 0));
}

#[test]
fn a_loss_is_settled_only_up_to_the_shortfall() {
    let mut v = VaultState { deployed_principal: 500, subaccount_count: 1, ..vault() };
    let mut record = Subaccount { vault_state: pk(VAULT_KEY), address: pk(CUSTODY), principal: 500, bump: 1 };
    assert_eq!(
        settle_subaccount_loss::handler(&mut v, pk(ADMIN), pk(VAULT_KEY), &mut record, 350, 151),
        Err(ErrorCode::LossExceedsShortfall)
    );
    assert_eq!(settle_subaccount_loss::handler(&mut v, pk(ADMIN), pk(VAULT_KEY), &mut record, 350, 0), Err(ErrorCode::ZeroAmount));
    assert_eq!(settle_subaccount_loss::handler(&mut v, pk(ADMIN), pk(VAULT_KEY), &mut record, 350, 150), Ok(()));
    assert_eq!((record.principal, v.deployed_principal), (350, 350));
    assert_eq!(deregister_subaccount::handler(&mut v, pk(ADMIN), pk(VAULT_KEY), &record), Err(ErrorCode::SubaccountNotEmpty));
}

#[test]
fn the_queue_authority_moves_only_with_the_current_queue_signing() {
    let vault_key = pk(VAULT_KEY);
    let queue_key = withdrawal_queue_pda(&vault_key).unwrap();
    let queue = AccountFacts { key: queue_key, owner: withdrawal_queue_program_id(), data_is_empty: false };
    let mut v = vault();
    assert_eq!(
        set_withdrawal_queue_authority::handler(&mut v, pk(ADMIN), vault_key, queue_key, Some(queue), None),
        Ok(Pubkey::default())
    );
    assert_eq!(v.withdrawal_queue(), Some(queue_key));
    assert_eq!(
        set_withdrawal_queue_authority::handler(&mut v, pk(ADMIN), vault_key, Pubkey::default(), None, None),
        Err(ErrorCode::WithdrawalQueueNotDrained)
    );
    assert_eq!(
        set_withdrawal_queue_authority::handler(&mut v, pk(ADMIN), vault_key, Pubkey::default(), Some(queue), Some(queue_key)),
        Err(ErrorCode::InvalidWithdrawalQueueAuthority)
    );
    assert_eq!(
        set_withdrawal_queue_authority::handler(&mut v, pk(ADMIN), vault_key, Pubkey::default(), None, Some(queue_key)),
        Ok(queue_key)
    );
    assert_eq!(v.withdrawal_queue(), None);
}

#[test]
fn config_authority_rotation_and_recovery() {
    let mut config = ProgramConfig { authority: Pubkey::default(), bump: 0 };
    let upgrade = pk(0xEE);
    assert_eq!(
        initialize_config::handler(&mut config, pk(0xEF), Some(upgrade), pk(0xC0), 9),
        Err(ErrorCode::NotProtocolAuthority)
    );
    assert_eq!(
        initialize_config::handler(&mut config, upgrade, None, pk(0xC0), 9),
        Err(ErrorCode::NotProtocolAuthority),
        "an immutable program has no upgrade authority"
    );
    assert_eq!(initialize_config::handler(&mut config, upgrade, Some(upgrade), pk(0xC0), 9), Ok(()));
    assert_eq!((config.authority, config.bump), (pk(0xC0), 9));

    assert_eq!(set_config_authority::handler(&mut config, pk(0xC1), pk(0xC2)), Err(ErrorCode::NotProtocolAuthority));
    assert_eq!(set_config_authority::handler(&mut config, pk(0xC0), Pubkey::default()), Err(ErrorCode::InvalidAuthority));
    assert_eq!(set_config_authority::handler(&mut config, pk(0xC0), pk(0xC2)), Ok(()));
    assert_eq!(config.authority, pk(0xC2));

    assert_eq!(
        override_config_authority::handler(&mut config, pk(0xC2), Some(upgrade), pk(0xC3)),
        Err(ErrorCode::NotProtocolAuthority)
    );
    assert_eq!(override_config_authority::handler(&mut config, upgrade, Some(upgrade), pk(0xC3)), Ok(()));
    assert_eq!(config.authority, pk(0xC3));
}

#[test]
fn share_token_metadata_is_written_by_the_admin_of_a_live_vault() {
    let v = vault();
    let record = update_share_token_metadata(&v, pk(ADMIN), "Share".to_string(), "SHR".to_string(), "https://x".to_string())
        .expect("admin");
    assert_eq!((record.name.as_str(), record.symbol.as_str(), record.uri.as_str()), ("Share", "SHR", "https://x"));
    assert_eq!(record.seller_fee_basis_points, 0);
    assert!(matches!(
        update_share_token_metadata(&v, pk(2), String::new(), String::new(), String::new()),
        Err(ErrorCode::UnauthorizedAdmin)
    ));
    let paused = VaultState { paused: true, ..vault() };
    assert!(matches!(
        update_share_token_metadata(&paused, pk(ADMIN), String::new(), String::new(), String::new()),
        Err(ErrorCode::VaultPaused)
    ));
}
