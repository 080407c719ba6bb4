//! The HTTP status codes that the service answers with.

use vstd::prelude::*;

verus! {

/// The request succeeded and the answer carries a body.
pub const OK: u16 = 200;

/// A post was stored.
pub const CREATED: u16 = 201;

/// The request succeeded and there is nothing to send back.
pub const NO_CONTENT: u16 = 204;

/// The payload was refused.
pub const BAD_REQUEST: u16 = 400;

/// Nothing is stored under the identifier, or nothing matched.
pub const NOT_FOUND: u16 = 404;

/// The database failed, or something unclassified went wrong.
pub const INTERNAL_SERVER_ERROR: u16 = 500;

} // verus!
