//! Users, tokens, and the guard for administrators.

pub mod admin_auth_middleware;
pub mod store;
pub mod token;
pub mod user;
