//! What the vault reports after an instruction succeeds.

use crate::key::Pubkey;
use vstd::prelude::*;

verus! {

/// Assets came in and shares were minted.
#[derive(Clone, Copy, Debug)]
pub struct DepositEvt {
    pub caller: Pubkey,
    pub receiver: Pubkey,
    pub amount: u64,
    pub shares: u64,
}

/// Shares were burned and their assets, net of the fee, paid out.
#[derive(Clone, Copy, Debug)]
pub struct WithdrawEvt {
    pub caller: Pubkey,
    pub receiver: Pubkey,
    pub owner: Pubkey,
    pub assets: u64,
    pub shares: u64,
}

/// A withdrawal queue became the vault's only redeemer.
#[derive(Clone, Copy, Debug)]
pub struct WithdrawalQueueAttached {
    pub vault: Pubkey,
    pub queue: Pubkey,
}

/// The vault returned to instant redemption.
#[derive(Clone, Copy, Debug)]
pub struct WithdrawalQueueDetached {
    pub vault: Pubkey,
    pub queue: Pubkey,
}

/// The vault's queue authority changed.
#[derive(Clone, Copy, Debug)]
pub struct WithdrawalQueueAuthorityUpdated {
    pub vault: Pubkey,
    pub previous: Pubkey,
    pub current: Pubkey,
}

} // verus!
