//! `compose_array`: compose an array of four values from a stream of values.
use vstd::prelude::*;
use crate::implementation::{RunAgain, RUN_AGAIN};
use crate::json::{JsonValue, JsonModel, values_model};

verus! {

/// Composes an array from the next four values of its input stream.
pub struct ComposeArray;

impl ComposeArray {
    /// Outputs an array of the first four values of the first input stream.
    pub fn run(&self, inputs: Vec<Vec<JsonValue>>) -> (r: (Option<JsonValue>, RunAgain))
        requires
            inputs@.len() >= 1,
            inputs@[0]@.len() >= 4,
        ensures
            r.0 matches Some(out) && out@ == JsonModel::Array(values_model(inputs@[0]@.take(4))),
            r.1 == RUN_AGAIN,
    {
        let mut inputs = inputs;
        let ghost stream = inputs@[0]@;
        let mut input_stream = inputs.remove(0);
        let mut output_vec: Vec<JsonValue> = Vec::new();

        output_vec.push(input_stream.remove(0));
        output_vec.push(input_stream.remove(0));
        output_vec.push(input_stream.remove(0));
        output_vec.push(input_stream.remove(0));

        proof {
            assert(output_vec@ =~= stream.take(4));
        }
        let output = JsonValue::Array(output_vec);

        (Some(output), RUN_AGAIN)
    }
}

} // verus!
