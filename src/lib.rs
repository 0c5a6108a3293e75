//! Classification of user-agent strings into a block / allow / unknown
//! decision, and the request and response messages of the service that
//! exposes it.
pub mod substring;
pub mod classifier;
pub mod service;
pub mod cli;
