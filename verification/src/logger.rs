//! The startup messages the process reports once it is listening. Building
//! the lines is the library's part; writing them to a sink is the caller's.

use vstd::prelude::*;
use vstd::string::StringExecFns;
use crate::values::{dec_str, u64_to_string};

verus! {

/// The two lines reported when the server has started on `port`.
pub fn startup_complete(port: u16) -> (r: Vec<String>)
    ensures
        r@.len() == 2,
        r@[0]@ == "Server started successfully on port "@ + dec_str(port as nat),
        r@[1]@ == "Health check available at http://localhost:"@ + dec_str(port as nat)
            + "/health"@,
{
    let digits = u64_to_string(port as u64);
    let mut first = String::from_str("Server started successfully on port ");
    first.append(digits.as_str());
    let mut second = String::from_str("Health check available at http://localhost:");
    second.append(digits.as_str());
    second.append("/health");
    let mut r: Vec<String> = Vec::new();
    r.push(first);
    r.push(second);
    r
}

} // verus!
