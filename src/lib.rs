//! Web capture service: an identity tier that issues bearer tokens and a
//! worker tier that runs extractor programs, stores their output and reports
//! on each capture through a ticket.

pub mod msg;
pub mod identity;
pub mod worker;
