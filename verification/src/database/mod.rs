//! What the service hands to the database.

pub mod pattern;
pub mod statement;
