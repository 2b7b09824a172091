//! Share-based vault accounting and its delayed-redemption queue.

pub mod account;
pub mod address;
pub mod key;
pub mod token;
pub mod vault;
pub mod queue;
