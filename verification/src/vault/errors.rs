//! The vault's error codes.
//!
//! Declaration order is the on-chain ABI: the runtime numbers user errors from
//! `ANCHOR_USER_ERROR_OFFSET` in declaration order, so a variant may only ever
//! be appended. [`abi_ordinal`] pins every variant's ordinal and
//! [`abi_pins`] lists each with its on-chain code.

use vstd::prelude::*;

verus! {

/// The runtime reserves the first 6000 codes; user variants start here.
pub const ANCHOR_USER_ERROR_OFFSET: u32 = 6000;

/// Every way a vault instruction can refuse.
#[derive(Debug, Clone, Copy, PartialEq, Eq, Structural)]
pub enum ErrorCode {
    NotOperator,
    ZeroAmount,
    InsufficientAmount,
    AumIncreaseTooBig,
    AumDecreaseTooBig,
    WithdrawalFeeTooHigh,
    AumLimitTooHigh,
    NotAdmin,
    VaultPaused,
    InvalidNominatedAdmin,
    NominationExpired,
    MathError,
    NumberOverflow,
    NotEnoughLiquidity,
    UnauthorizedAdmin,
    VaultNotEmpty,
    NotProtocolAuthority,
    InvalidAuthority,
    SlippageExceeded,
    SharePriceUndefined,
    InvalidShareOffset,
    WithdrawalQueueRequired,
    InvalidOperatorSubaccount,
    SubaccountDelegationMissing,
    InvalidSubaccount,
    SubaccountNotEmpty,
    LossExceedsShortfall,
    InvalidWithdrawalQueueAuthority,
    WithdrawalQueueNotDrained,
    WithdrawalQueueAlreadyAttached,
    WithdrawalQueueNotAttached,
    WrongWithdrawalQueueSigner,
}

/// The declaration ordinal of each variant.
pub open spec fn spec_abi_ordinal(e: ErrorCode) -> u32 {
    match e {
        ErrorCode::NotOperator => 0,
        ErrorCode::ZeroAmount => 1,
        ErrorCode::InsufficientAmount => 2,
        ErrorCode::AumIncreaseTooBig => 3,
        ErrorCode::AumDecreaseTooBig => 4,
        ErrorCode::WithdrawalFeeTooHigh => 5,
        ErrorCode::AumLimitTooHigh => 6,
        ErrorCode::NotAdmin => 7,
        ErrorCode::VaultPaused => 8,
        ErrorCode::InvalidNominatedAdmin => 9,
        ErrorCode::NominationExpired => 10,
        ErrorCode::MathError => 11,
        ErrorCode::NumberOverflow => 12,
        ErrorCode::NotEnoughLiquidity => 13,
        ErrorCode::UnauthorizedAdmin => 14,
        ErrorCode::VaultNotEmpty => 15,
        ErrorCode::NotProtocolAuthority => 16,
        ErrorCode::InvalidAuthority => 17,
        ErrorCode::SlippageExceeded => 18,
        ErrorCode::SharePriceUndefined => 19,
        ErrorCode::InvalidShareOffset => 20,
        ErrorCode::WithdrawalQueueRequired => 21,
        ErrorCode::InvalidOperatorSubaccount => 22,
        ErrorCode::SubaccountDelegationMissing => 23,
        ErrorCode::InvalidSubaccount => 24,
        ErrorCode::SubaccountNotEmpty => 25,
        ErrorCode::LossExceedsShortfall => 26,
        ErrorCode::InvalidWithdrawalQueueAuthority => 27,
        ErrorCode::WithdrawalQueueNotDrained => 28,
        ErrorCode::WithdrawalQueueAlreadyAttached => 29,
        ErrorCode::WithdrawalQueueNotAttached => 30,
        ErrorCode::WrongWithdrawalQueueSigner => 31,
    }
}

/// The pinned ordinal of `e`. Exhaustive, so a new variant cannot go unpinned.
pub fn abi_ordinal(e: ErrorCode) -> (r: u32)
    ensures
        r == spec_abi_ordinal(e),
        r <= 31,
{
    match e {
        ErrorCode::NotOperator => 0,
        ErrorCode::ZeroAmount => 1,
        ErrorCode::InsufficientAmount => 2,
        ErrorCode::AumIncreaseTooBig => 3,
        ErrorCode::AumDecreaseTooBig => 4,
        ErrorCode::WithdrawalFeeTooHigh => 5,
        ErrorCode::AumLimitTooHigh => 6,
        ErrorCode::NotAdmin => 7,
        ErrorCode::VaultPaused => 8,
        ErrorCode::InvalidNominatedAdmin => 9,
        ErrorCode::NominationExpired => 10,
        ErrorCode::MathError => 11,
        ErrorCode::NumberOverflow => 12,
        ErrorCode::NotEnoughLiquidity => 13,
        ErrorCode::UnauthorizedAdmin => 14,
        ErrorCode::VaultNotEmpty => 15,
        ErrorCode::NotProtocolAuthority => 16,
        ErrorCode::InvalidAuthority => 17,
        ErrorCode::SlippageExceeded => 18,
        ErrorCode::SharePriceUndefined => 19,
        ErrorCode::InvalidShareOffset => 20,
        ErrorCode::WithdrawalQueueRequired => 21,
        ErrorCode::InvalidOperatorSubaccount => 22,
        ErrorCode::SubaccountDelegationMissing => 23,
        ErrorCode::InvalidSubaccount => 24,
        ErrorCode::SubaccountNotEmpty => 25,
        ErrorCode::LossExceedsShortfall => 26,
        ErrorCode::InvalidWithdrawalQueueAuthority => 27,
        ErrorCode::WithdrawalQueueNotDrained => 28,
        ErrorCode::WithdrawalQueueAlreadyAttached => 29,
        ErrorCode::WithdrawalQueueNotAttached => 30,
        ErrorCode::WrongWithdrawalQueueSigner => 31,
    }
}

impl ErrorCode {
    /// The on-chain error code of this variant.
    pub fn code(&self) -> (r: u32)
        ensures
            r == spec_abi_ordinal(*self) + ANCHOR_USER_ERROR_OFFSET,
    {
        abi_ordinal(*self) + ANCHOR_USER_ERROR_OFFSET
    }
}

/// Every variant in declaration order, with its on-chain code.
pub fn abi_pins() -> (pins: Vec<(ErrorCode, u32)>)
    ensures
        pins.len() == 32,
        forall|i: int|
            0 <= i < pins.len() ==> spec_abi_ordinal(#[trigger] pins[i].0) == i && pins[i].1 == i
                + ANCHOR_USER_ERROR_OFFSET,
{
    let all = vec![
        ErrorCode::NotOperator,
        ErrorCode::ZeroAmount,
        ErrorCode::InsufficientAmount,
        ErrorCode::AumIncreaseTooBig,
        ErrorCode::AumDecreaseTooBig,
        ErrorCode::WithdrawalFeeTooHigh,
        ErrorCode::AumLimitTooHigh,
        ErrorCode::NotAdmin,
        ErrorCode::VaultPaused,
        ErrorCode::InvalidNominatedAdmin,
        ErrorCode::NominationExpired,
        ErrorCode::MathError,
        ErrorCode::NumberOverflow,
        ErrorCode::NotEnoughLiquidity,
        ErrorCode::UnauthorizedAdmin,
        ErrorCode::VaultNotEmpty,
        ErrorCode::NotProtocolAuthority,
        ErrorCode::InvalidAuthority,
        ErrorCode::SlippageExceeded,
        ErrorCode::SharePriceUndefined,
        ErrorCode::InvalidShareOffset,
        ErrorCode::WithdrawalQueueRequired,
        ErrorCode::InvalidOperatorSubaccount,
        ErrorCode::SubaccountDelegationMissing,
        ErrorCode::InvalidSubaccount,
        ErrorCode::SubaccountNotEmpty,
        ErrorCode::LossExceedsShortfall,
        ErrorCode::InvalidWithdrawalQueueAuthority,
        ErrorCode::WithdrawalQueueNotDrained,
        ErrorCode::WithdrawalQueueAlreadyAttached,
        ErrorCode::WithdrawalQueueNotAttached,
        ErrorCode::WrongWithdrawalQueueSigner,
    ];
    assert(forall|i: int| 0 <= i < all.len() ==> spec_abi_ordinal(#[trigger] all[i]) == i);
    let mut pins: Vec<(ErrorCode, u32)> = Vec::new();
    let mut i: usize = 0;
    while i < all.len()
        invariant
            all.len() == 32,
            i <= all.len(),
            pins.len() == i,
            forall|j: int| 0 <= j < all.len() ==> spec_abi_ordinal(#[trigger] all[j]) == j,
            forall|j: int|
                0 <= j < i ==> #[trigger] pins[j].0 == all[j] && pins[j].1 == j
                    + ANCHOR_USER_ERROR_OFFSET,
        decreases all.len() - i,
    {
        let e = all[i];
        let c = e.code();
        pins.push((e, c));
        i = i + 1;
    }
    pins
}

} // verus!
