//! Routes for administrators.

pub mod test;
