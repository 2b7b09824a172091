//! What the programs read of an arbitrary account.

use crate::key::Pubkey;
use vstd::prelude::*;

verus! {

/// An account's address, its owning program, and whether it holds data.
#[derive(Clone, Copy, Debug)]
pub struct AccountFacts {
    pub key: Pubkey,
    pub owner: Pubkey,
    pub data_is_empty: bool,
}

} // verus!
