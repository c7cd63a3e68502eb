//! What comes back from the credential store.

use vstd::prelude::*;

verus! {

/// A round trip to the credential store failed: the store could not be
/// reached, or answered with something other than rows. It carries no
/// detail, as none of it may leave the system.
#[derive(Debug, Clone, Copy, PartialEq, Eq, Structural)]
pub struct StoreError;

/// The row that the lookup of a user name gives: whose account it is, and
/// the password hash kept for it.
pub struct StoredCredentials {
    pub user_id: i64,
    pub password: String,
}

} // verus!
