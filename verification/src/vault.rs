//! The share-based vault: its state accounts, pricing and instructions.

pub mod errors;
pub mod events;
pub mod instructions;
pub mod laws;
pub mod state;
