//! A route to try the guard for administrators with.

use vstd::prelude::*;
use vstd::string::StringExecFns;

verus! {

/// Greets by name.
pub fn admin_endpoint_test(name: &str) -> (greeting: String)
    ensures
        greeting@ == "Hi "@ + name@,
{
    let mut greeting = "Hi ".to_owned();
    greeting.append(name);
    greeting
}

} // verus!
