//! The queue's two account types.

pub mod withdrawal_queue;
pub mod withdrawal_request;
