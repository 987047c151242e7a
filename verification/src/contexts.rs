//! The caller-visible operations: donate, match, finalize, and the
//! superseded single-transaction variants.

pub mod donate;
pub mod finalize;
pub mod finalize_sol;
pub mod match_donation;
pub mod match_sol;
