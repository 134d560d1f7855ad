//! The worker tier: tickets, the shared capture state, capture jobs and the
//! request handlers built on them.

pub mod digest;
pub mod ticket;
pub mod state;
pub mod auth;
pub mod task;
pub mod handler;
