//! What every part of the application agrees on about a session.

use vstd::prelude::*;

verus! {

/// The name of the cookie that carries the session token.
pub const JWT_AUTH_COOKIE_NAME: &'static str = "JWT";

/// The number of minutes for which a session token is valid.
pub const JWT_AUTH_EXPIRATION_MINS: u64 = 10;

/// The number of seconds for which a session token is valid.
pub open spec fn session_seconds() -> int {
    60 * JWT_AUTH_EXPIRATION_MINS
}

} // verus!
