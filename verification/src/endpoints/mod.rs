//! What each route answers.

pub mod admin;
pub mod user;
