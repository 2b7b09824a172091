//! The vault's accounts.

pub mod config;
pub mod nominated_admin;
pub mod subaccount;
pub mod vault;
