//! The decision core of a small blog-post service.
//!
//! The service stores posts in a relational database and talks HTTP; neither
//! happens here. This crate holds what the service decides: which payloads
//! are acceptable, which statement a request hands to the database, what is
//! answered once the database has replied, and how an error becomes a status
//! code and a JSON document. Every function is verified against its contract.

pub mod database;
pub mod error;
pub mod handler;
pub mod json;
pub mod model;
pub mod server;
pub mod status;
pub mod validation;
