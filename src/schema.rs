//! Root of the query surface offered to the API layer.
use vstd::prelude::*;

verus! {

/// Entry point of the read-only queries.
pub struct QueryRoot;

impl QueryRoot {
    /// A fixed greeting that shows the service answers.
    pub fn hello(&self) -> (r: String)
        ensures
            r@ == "test from autospace Rust"@,
    {
        "test from autospace Rust".to_owned()
    }
}

} // verus!
