//! One registered operator destination.

use crate::key::Pubkey;
use vstd::prelude::*;

verus! {

/// First seed of a subaccount record's address.
pub const SUBACCOUNT_SEED: [u8; 10] = [83, 85, 66, 65, 67, 67, 79, 85, 78, 84];

/// One permitted operator destination; its existence at the derived address
/// is the registration.
#[derive(Clone, Copy, Debug)]
pub struct Subaccount {
    /// The vault it serves.
    pub vault_state: Pubkey,
    /// The receiving address.
    pub address: Pubkey,
    /// Principal sent here and not returned.
    pub principal: u64,
    pub bump: u8,
}

impl Default for Subaccount {
    /// An all-zero registry entry.
    fn default() -> (r: Self)
        ensures
            r.vault_state@ == crate::key::zero_bytes(),
            r.address@ == crate::key::zero_bytes(),
            r.principal == 0,
            r.bump == 0,
    {
        Subaccount { vault_state: Pubkey::zero(), address: Pubkey::zero(), principal: 0, bump: 0 }
    }
}

impl Subaccount {
    /// The values this account's address seeds are built from, after the
    /// constant prefix: the vault, the address and the bump.
    pub fn seeds(&self) -> (r: (Pubkey, Pubkey, u8))
        ensures
            r == (self.vault_state, self.address, self.bump),
    {
        (self.vault_state, self.address, self.bump)
    }
}

} // verus!
