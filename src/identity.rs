//! The identity tier: user records, request checks and the token registry.

pub mod models;
pub mod state;
pub mod account;
