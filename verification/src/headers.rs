//! The header names the connectors' calls use.

use vstd::prelude::*;

verus! {

/// The content-type header name.
pub fn content_type() -> (r: &'static str)
    ensures
        r@ == "Content-Type"@,
{
    "Content-Type"
}

/// The authorization header name.
pub fn authorization() -> (r: &'static str)
    ensures
        r@ == "Authorization"@,
{
    "Authorization"
}

} // verus!
