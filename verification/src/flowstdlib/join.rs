//! `join`: control the flow of a piece of data by waiting for a second value to be available.
use vstd::prelude::*;
use crate::implementation::{RunAgain, RUN_AGAIN};
use crate::json::JsonValue;

verus! {

/// Control the flow of a piece of data by waiting for a second value to be available.
///
/// Inputs: `data`, the data whose flow is controlled, and `control`, a second value waited on.
/// Output: `data`.
#[derive(Debug)]
pub struct Join;

impl Join {
    /// Passes on the data once both inputs are available.
    pub fn run(&self, inputs: &[JsonValue]) -> (r: (Option<JsonValue>, RunAgain))
        requires
            inputs@.len() >= 1,
        ensures
            r.0 matches Some(d) && d@ == inputs@[0]@,
            r.1 == RUN_AGAIN,
    {
        let data = Some(inputs[0].deep_clone());
        (data, RUN_AGAIN)
    }
}

} // verus!
