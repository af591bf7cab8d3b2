//! `route`: route data to one output or another based on a boolean control value.
use vstd::prelude::*;
use crate::implementation::{RunAgain, RUN_AGAIN};
use crate::json::{JsonValue, JsonModel, bool_text, bool_to_string, lemma_entries_model};

verus! {

/// Route data to one or another output based on a boolean control value.
#[derive(Debug)]
pub struct Route;

/// The control value: the boolean in the second input, false when it holds none.
pub open spec fn control_of(v: JsonModel) -> bool {
    match v {
        JsonModel::Bool(b) => b,
        _ => false,
    }
}

impl Route {
    /// Outputs an object with the data under the key `true` or `false`, as the control says.
    pub fn run(&self, inputs: &[JsonValue]) -> (r: (Option<JsonValue>, RunAgain))
        requires
            inputs@.len() >= 2,
        ensures
            r.0 matches Some(out) && out@ == JsonModel::Object(
                seq![(bool_text(control_of(inputs@[1]@)), inputs@[0]@)],
            ),
            r.1 == RUN_AGAIN,
    {
        let data = &inputs[0];
        let control = match inputs[1].as_bool() {
            Some(b) => b,
            None => false,
        };
        let mut output_map: Vec<(String, JsonValue)> = Vec::new();
        output_map.push((bool_to_string(control), data.deep_clone()));
        proof {
            lemma_entries_model(output_map@);
            assert(crate::json::entries_model(output_map@) =~= seq![
                (bool_text(control_of(inputs@[1]@)), inputs@[0]@),
            ]);
        }
        (Some(JsonValue::Object(output_map)), RUN_AGAIN)
    }
}

/// The data is routed to exactly one of the two outputs: the key of the single output entry
/// is `true` when the control is true and `false` otherwise.
pub proof fn law_route_to_one_output(control: JsonModel)
    ensures
        control_of(control) ==> bool_text(control_of(control)) == seq!['t', 'r', 'u', 'e'],
        !control_of(control) ==> bool_text(control_of(control)) == seq!['f', 'a', 'l', 's', 'e'],
        bool_text(true) != bool_text(false),
{
    assert(bool_text(true).len() != bool_text(false).len());
}

} // verus!
