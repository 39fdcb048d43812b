//! Verified core of the site management service: password hashing,
//! session and account records, and the decisions taken by each route.

pub mod text;
pub mod argon2;
pub mod random;
pub mod clock;
pub mod models;
pub mod db;
pub mod responses;
pub mod user_login;
pub mod auth;
pub mod routes;

use vstd::prelude::*;

verus! {

/// How long a session stays valid: 48 hours, in seconds.
pub const SESSION_LENGTH: u64 = 60 * 60 * 48;

/// Name of the cookie that holds the session key.
pub const SESSION_COOKIE: &'static str = "SESSION_KEY";

} // verus!
