//! A dead-man-switch escrow: a beneficiary may request a withdrawal of
//! custodied assets, which becomes claimable only after a configured delay,
//! while an override authority may cancel a pending request before it is
//! claimed.
pub mod arith;
pub mod contract;
pub mod error;
pub mod execute;
pub mod laws;
pub mod msg;
pub mod query;
pub mod state;
