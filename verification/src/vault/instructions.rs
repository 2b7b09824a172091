//! The vault's instructions: what each one checks and what it changes.

pub mod deposit;
pub mod redeem;
pub mod operator_withdraw;
pub mod operator_deposit;
pub mod operator_update_aum;
pub mod pause;
pub mod set_aum_limits;
pub mod set_fee_recipient;
pub mod set_operator;
pub mod set_withdrawal_fee;
pub mod unpause;
pub mod deregister_subaccount;
pub mod register_subaccount;
pub mod set_operator_subaccount;
pub mod settle_subaccount_loss;
pub mod attach_withdrawal_queue;
pub mod detach_withdrawal_queue;
pub mod set_withdrawal_queue_authority;
pub mod accept_admin_nomination;
pub mod close_vault;
pub mod initialize;
pub mod initialize_config;
pub mod nominate_admin;
pub mod override_config_authority;
pub mod set_config_authority;
pub mod update_metadata;
