//! The two persistent records: the escrow ledger and the participant ledger.

pub mod escrow;
pub mod user;
