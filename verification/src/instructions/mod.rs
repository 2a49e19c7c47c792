//! The operations of the protocol, one module each.

pub mod lock_tokens;
pub mod increase_lock_amount;
pub mod increase_lock_duration;
pub mod withdraw;
pub mod deposit_fees;
pub mod claim_fees;
pub mod mint_tokens;
pub mod initialize;
