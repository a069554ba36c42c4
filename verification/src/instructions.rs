//! The operations, one module each: what a caller hands in, the authorization
//! that is checked before anything else, and the handler that runs the
//! operation as one atomic unit.

pub mod bet;
pub mod initialize_escrow;
pub mod initialize_user;
pub mod reset_gameweek;
pub mod set_eligibility;
pub mod withdraw;
