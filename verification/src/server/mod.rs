//! How the operations are offered over HTTP.

pub mod routes;
