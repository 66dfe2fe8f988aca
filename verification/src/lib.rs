pub mod handlers;
pub mod model;
pub mod sdk;

use vstd::prelude::*;

verus! {

/// The failure half of every endpoint's response envelope: `success` is
/// always false and `error` carries a descriptive message for the client.
#[derive(Debug)]
pub struct ErrorResponse {
    pub success: bool,
    pub error: String,
}

impl ErrorResponse {
    pub fn new(error: &str) -> (r: Self)
        ensures
            r.success == false,
            r.error@ == error@,
    {
        ErrorResponse { success: false, error: error.to_owned() }
    }
}

} // verus!
