//! Program-derived addresses.
//!
//! Deriving an address hashes its seeds with SHA-256 and searches for a bump
//! that takes the hash off the ed25519 curve; that computation is the
//! runtime's, called here through [`try_find_program_address`].

use crate::key::Pubkey;
use vstd::prelude::*;

verus! {

/// The address, and its bump, that the runtime derives for the seeds
/// `[prefix, key]` under `program`, or `None` when no bump yields an address
/// off the curve. A function of its arguments alone.
pub uninterp spec fn program_address(prefix: Seq<u8>, key: Seq<u8>, program: Seq<u8>) -> Option<(Seq<u8>, u8)>;

/// Calls `Pubkey::try_find_program_address` of `anchor_lang` (from
/// `solana-pubkey`) with the seeds `[prefix, key]` under `program`. The
/// contract claims only that its result is [`program_address`] of those
/// arguments: the same inputs always derive the same address and bump.
#[verifier::external_body]
pub(crate) fn try_find_program_address(prefix: &[u8], key: &Pubkey, program: &Pubkey) -> (r:
    Option<(Pubkey, u8)>)
    ensures
        r is Some <==> program_address(prefix@, key@, program@) is Some,
        r matches Some(p) ==> (program_address(prefix@, key@, program@) matches Some(q) && p.0@
            == q.0 && p.1 == q.1),
{
    let program = anchor_lang::prelude::Pubkey::new_from_array(program.bytes);
    let seeds: [&[u8]; 2] = [prefix, &key.bytes];
    anchor_lang::prelude::Pubkey::try_find_program_address(&seeds, &program).map(
        |(address, bump)| (Pubkey { bytes: address.to_bytes() }, bump),
    )
}

} // verus!
