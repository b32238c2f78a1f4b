//! The plainest service: a state-free handler.
use vstd::prelude::*;

verus! {

/// `GET /` of the plain service: a fixed greeting.
pub fn home() -> (r: String)
    ensures
        r@ == "Hello Struct"@,
{
    "Hello Struct".to_string()
}

} // verus!
