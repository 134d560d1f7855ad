//! Messages exchanged between clients, the identity tier and the workers.

pub mod clicor;
pub mod corwrk;
