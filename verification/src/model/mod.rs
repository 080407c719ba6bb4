//! The data that the service stores.

pub mod blog;
