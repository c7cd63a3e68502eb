//! Bearer-token authentication: password hashing, token issuance, token
//! validation with a time-to-live, and the guards that keep unauthenticated or
//! under-privileged requests away from a handler.

pub mod argon;
pub mod clock;
pub mod config;
pub mod endpoints;
pub mod model;
pub mod text;
pub mod util;
