//! The operations of the service, one module each.
//!
//! No operation touches the database itself. Each is a pair of functions
//! around the one statement that it runs: the first takes what the request
//! carried and names the statement, or refuses the request; the second takes
//! what the database answered and decides what the client is told.

pub mod create;
pub mod delete;
pub mod list;
pub mod read;
pub mod search;
pub mod update;
