//! The program-wide configuration account.

use crate::key::Pubkey;
use vstd::prelude::*;

verus! {

/// The seed of the program config's address.
pub const PROGRAM_CONFIG_SEED: [u8; 14] = [112, 114, 111, 103, 114, 97, 109, 95, 99, 111, 110, 102, 105, 103];

/// Program-wide configuration: the one key permitted to create vaults.
#[derive(Clone, Copy, Debug)]
pub struct ProgramConfig {
    /// The only key permitted to call `initialize`.
    pub authority: Pubkey,
    /// Bump of this account's address.
    pub bump: u8,
}

impl Default for ProgramConfig {
    /// A config naming the zero key.
    fn default() -> (r: Self)
        ensures
            r.authority@ == crate::key::zero_bytes(),
            r.bump == 0,
    {
        ProgramConfig { authority: Pubkey::zero(), bump: 0 }
    }
}

impl ProgramConfig {
    /// Fill a freshly created config.
    pub fn init(&mut self, authority: Pubkey, bump: u8)
        ensures
            final(self).authority == authority,
            final(self).bump == bump,
    {
        self.authority = authority;
        self.bump = bump;
    }
}

} // verus!
