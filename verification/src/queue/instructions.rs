//! The queue's instructions: what each one checks and what it changes.

pub mod initialize_queue;
pub mod set_accepting_requests;
pub mod set_cooldown;
pub mod set_fulfillment_window;
pub mod admin_cancel_withdrawal;
pub mod cancel_withdrawal;
pub mod finalize_withdrawal;
pub mod request_withdrawal;
pub mod expedite_request;
pub mod release_vault;
pub mod sweep_escrow_shares;
pub mod update_request;
