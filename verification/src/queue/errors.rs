//! The withdrawal queue's error codes.
//!
//! Declaration order is the on-chain ABI, numbered from
//! `ANCHOR_USER_ERROR_OFFSET`; variants are only ever appended.
//! [`abi_ordinal`] pins every ordinal and [`abi_pins`] lists each variant with
//! its on-chain code.

use vstd::prelude::*;

verus! {

/// The runtime reserves the first 6000 codes; user variants start here.
pub const ANCHOR_USER_ERROR_OFFSET: u32 = 6000;

/// Every way a queue instruction can refuse.
#[derive(Debug, Clone, Copy, PartialEq, Eq, Structural)]
pub enum ErrorCode {
    NotVaultAdmin,
    MathError,
    VaultMismatch,
    CooldownOutOfBounds,
    FulfillmentWindowOutOfBounds,
    QueueNotActiveOnVault,
    UnsupportedDepositMint,
    ZeroShares,
    InvalidRecipient,
    NotRequestOwner,
    RequestExpired,
    StaleRequestSequence,
    NothingToUpdate,
    CooldownNotElapsed,
    FinalizerNotAllowed,
    PayoutBelowFloor,
    FeeAccountIsEscrow,
    QueueStillAttached,
    AdminCancelTooEarly,
    RequestAlreadyEligible,
    EmptyBatch,
    BatchTooLarge,
    BatchLengthMismatch,
    RequestsNotSorted,
    NothingToSweep,
    InvalidSweepDestination,
}

/// The declaration ordinal of each variant.
pub open spec fn spec_abi_ordinal(e: ErrorCode) -> u32 {
    match e {
        ErrorCode::NotVaultAdmin => 0,
        ErrorCode::MathError => 1,
        ErrorCode::VaultMismatch => 2,
        ErrorCode::CooldownOutOfBounds => 3,
        ErrorCode::FulfillmentWindowOutOfBounds => 4,
        ErrorCode::QueueNotActiveOnVault => 5,
        ErrorCode::UnsupportedDepositMint => 6,
        ErrorCode::ZeroShares => 7,
        ErrorCode::InvalidRecipient => 8,
        ErrorCode::NotRequestOwner => 9,
        ErrorCode::RequestExpired => 10,
        ErrorCode::StaleRequestSequence => 11,
        ErrorCode::NothingToUpdate => 12,
        ErrorCode::CooldownNotElapsed => 13,
        ErrorCode::FinalizerNotAllowed => 14,
        ErrorCode::PayoutBelowFloor => 15,
        ErrorCode::FeeAccountIsEscrow => 16,
        ErrorCode::QueueStillAttached => 17,
        ErrorCode::AdminCancelTooEarly => 18,
        ErrorCode::RequestAlreadyEligible => 19,
        ErrorCode::EmptyBatch => 20,
        ErrorCode::BatchTooLarge => 21,
        ErrorCode::BatchLengthMismatch => 22,
        ErrorCode::RequestsNotSorted => 23,
        ErrorCode::NothingToSweep => 24,
        ErrorCode::InvalidSweepDestination => 25,
    }
}

/// The pinned ordinal of `e`. Exhaustive, so a new variant cannot go unpinned.
pub fn abi_ordinal(e: ErrorCode) -> (r: u32)
    ensures
        r == spec_abi_ordinal(e),
        r <= 25,
{
    match e {
        ErrorCode::NotVaultAdmin => 0,
        ErrorCode::MathError => 1,
        ErrorCode::VaultMismatch => 2,
        ErrorCode::CooldownOutOfBounds => 3,
        ErrorCode::FulfillmentWindowOutOfBounds => 4,
        ErrorCode::QueueNotActiveOnVault => 5,
        ErrorCode::UnsupportedDepositMint => 6,
        ErrorCode::ZeroShares => 7,
        ErrorCode::InvalidRecipient => 8,
        ErrorCode::NotRequestOwner => 9,
        ErrorCode::RequestExpired => 10,
        ErrorCode::StaleRequestSequence => 11,
        ErrorCode::NothingToUpdate => 12,
        ErrorCode::CooldownNotElapsed => 13,
        ErrorCode::FinalizerNotAllowed => 14,
        ErrorCode::PayoutBelowFloor => 15,
        ErrorCode::FeeAccountIsEscrow => 16,
        ErrorCode::QueueStillAttached => 17,
        ErrorCode::AdminCancelTooEarly => 18,
        ErrorCode::RequestAlreadyEligible => 19,
        ErrorCode::EmptyBatch => 20,
        ErrorCode::BatchTooLarge => 21,
        ErrorCode::BatchLengthMismatch => 22,
        ErrorCode::RequestsNotSorted => 23,
        ErrorCode::NothingToSweep => 24,
        ErrorCode::InvalidSweepDestination => 25,
    }
}

impl ErrorCode {
    /// The on-chain error code of this variant.
    pub fn code(&self) -> (r: u32)
        ensures
            r == spec_abi_ordinal(*self) + ANCHOR_USER_ERROR_OFFSET,
    {
        abi_ordinal(*self) + ANCHOR_USER_ERROR_OFFSET
    }
}

/// Every variant in declaration order, with its on-chain code.
pub fn abi_pins() -> (pins: Vec<(ErrorCode, u32)>)
    ensures
        pins.len() == 26,
        forall|i: int|
            0 <= i < pins.len() ==> spec_abi_ordinal(#[trigger] pins[i].0) == i && pins[i].1 == i
                + ANCHOR_USER_ERROR_OFFSET,
{
    let all = vec![
        ErrorCode::NotVaultAdmin,
        ErrorCode::MathError,
        ErrorCode::VaultMismatch,
        ErrorCode::CooldownOutOfBounds,
        ErrorCode::FulfillmentWindowOutOfBounds,
        ErrorCode::QueueNotActiveOnVault,
        ErrorCode::UnsupportedDepositMint,
        ErrorCode::ZeroShares,
        ErrorCode::InvalidRecipient,
        ErrorCode::NotRequestOwner,
        ErrorCode::RequestExpired,
        ErrorCode::StaleRequestSequence,
        ErrorCode::NothingToUpdate,
        ErrorCode::CooldownNotElapsed,
        ErrorCode::FinalizerNotAllowed,
        ErrorCode::PayoutBelowFloor,
        ErrorCode::FeeAccountIsEscrow,
        ErrorCode::QueueStillAttached,
        ErrorCode::AdminCancelTooEarly,
        ErrorCode::RequestAlreadyEligible,
        ErrorCode::EmptyBatch,
        ErrorCode::BatchTooLarge,
        ErrorCode::BatchLengthMismatch,
        ErrorCode::RequestsNotSorted,
        ErrorCode::NothingToSweep,
        ErrorCode::InvalidSweepDestination,
    ];
    assert(forall|i: int| 0 <= i < all.len() ==> spec_abi_ordinal(#[trigger] all[i]) == i);
    let mut pins: Vec<(ErrorCode, u32)> = Vec::new();
    let mut i: usize = 0;
    while i < all.len()
        invariant
            all.len() == 26,
            i <= all.len(),
            pins.len() == i,
            forall|j: int| 0 <= j < all.len() ==> spec_abi_ordinal(#[trigger] all[j]) == j,
            forall|j: int|
                0 <= j < i ==> #[trigger] pins[j].0 == all[j] && pins[j].1 == j
                    + ANCHOR_USER_ERROR_OFFSET,
        decreases all.len() - i,
    {
        let e = all[i];
        let c = e.code();
        pins.push((e, c));
        i = i + 1;
    }
    pins
}

/// The framework's own account-constraint refusals that the queue raises when
/// it checks a trailing account by hand.
#[derive(Debug, Clone, Copy, PartialEq, Eq, Structural)]
pub enum ConstraintViolation {
    /// The account was not passed writable.
    ConstraintMut,
    /// The account is not bound to the expected owner record.
    ConstraintHasOne,
}

/// A refusal from a batch instruction: the queue's own code, or a framework
/// constraint on a trailing account.
#[derive(Debug, Clone, Copy, PartialEq, Eq, Structural)]
pub enum BatchError {
    Queue(ErrorCode),
    Constraint(ConstraintViolation),
}

} // verus!
