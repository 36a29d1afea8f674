//! A diagnostic stub unrelated to the account's invariants.

use vstd::prelude::*;
use vstd::string::StringExecFns;

verus! {

/// Returns the fixed diagnostic string constant `"Test"`.
pub fn return_string() -> (r: String)
    ensures
        r@ == "Test"@,
{
    String::from_str("Test")
}

} // verus!
