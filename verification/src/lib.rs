//! A restaurant review service: signed session tokens and the key that signs
//! them, the extraction of a request's sender from its cookie, the store of
//! restaurants, reviews and users, and what the service's pages and actions
//! decide.

pub mod crypto;
pub mod errors;
pub mod filters;
pub mod handlers;
pub mod models;
pub mod strings;
