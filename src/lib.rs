//! A dynamic-DNS updater for the Porkbun DNS API.
//!
//! The library holds the configuration shape, the error kinds, and the
//! update workflow as a state machine: it decides which request to send
//! next from the replies it is handed, while the caller performs the I/O.

pub mod config;
pub mod error;
pub mod api;
pub mod workflow;
