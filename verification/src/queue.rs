//! The delayed-redemption queue: holders escrow shares, wait out a cooldown,
//! and the queue redeems on their behalf.

pub mod auth;
pub mod batch;
pub mod errors;
pub mod events;
pub mod instructions;
pub mod laws;
pub mod mint_policy;
pub mod recipient;
pub mod state;
