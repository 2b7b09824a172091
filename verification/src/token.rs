//! What the vault and the queue read of a token account.
//!
//! The token program owns these accounts; the logic reads only these fields,
//! so they are carried here as plain values.

use crate::key::Pubkey;
use vstd::prelude::*;

verus! {

/// The fields of an SPL token account that the programs' rules read.
#[derive(Clone, Copy, Debug)]
pub struct TokenAccountState {
    /// The mint this account holds.
    pub mint: Pubkey,
    /// The account's authority.
    pub owner: Pubkey,
    /// Balance in base units.
    pub amount: u64,
    /// The approved delegate, if any.
    pub delegate: Option<Pubkey>,
    /// What the delegate may still move.
    pub delegated_amount: u64,
}

impl TokenAccountState {
    /// Whether `delegate` is this account's delegate with at least `minimum`
    /// still approved.
    pub fn delegates_at_least(&self, delegate: &Pubkey, minimum: u64) -> (r: bool)
        ensures
            r == (self.delegate == Some(*delegate) && self.delegated_amount >= minimum),
    {
        match &self.delegate {
            Some(d) => d.same(delegate) && self.delegated_amount >= minimum,
            None => false,
        }
    }
}

} // verus!
