//! What the run list decides once a process has run: which value each of its output routes
//! delivers, found in the output by the route as a JSON pointer, and whether the process is
//! put back among those that can run.
use vstd::prelude::*;
use crate::json::JsonValue;
use crate::json_serde::{json_pointer, opt_json, pointer_of};

verus! {

/// The value each output route delivers, in the order of the routes: for a route
/// (sub-route, destination id, input number), the destination, the input, and the value the
/// sub-route leads to inside the output, where it leads to one.
pub fn deliveries(output: &JsonValue, routes: &Vec<(String, usize, usize)>) -> (r: Vec<
    (usize, usize, Option<JsonValue>),
>)
    ensures
        r.len() == routes.len(),
        forall|i: int|
            0 <= i < r.len() ==> (#[trigger] r@[i]).0 == routes@[i].1 && r@[i].1 == routes@[i].2
                && opt_json(r@[i].2) == pointer_of(output@, routes@[i].0@),
{
    let mut r: Vec<(usize, usize, Option<JsonValue>)> = Vec::new();
    let mut i: usize = 0;
    while i < routes.len()
        invariant
            i <= routes.len(),
            r.len() == i,
            forall|k: int|
                0 <= k < i ==> (#[trigger] r@[k]).0 == routes@[k].1 && r@[k].1 == routes@[k].2
                    && opt_json(r@[k].2) == pointer_of(output@, routes@[k].0@),
        decreases routes.len() - i,
    {
        let value = json_pointer(output, routes[i].0.as_str());
        r.push((routes[i].1, routes[i].2, value));
        i = i + 1;
    }
    r
}

/// After a process has run: the output to send on, if it produced one, and whether it is put
/// back among the processes that can run, which it is when it may run again and can run.
pub fn after_run(output: Option<JsonValue>, run_again: bool, can_run: bool) -> (r: (
    Option<JsonValue>,
    bool,
))
    ensures
        opt_json(r.0) == opt_json(output),
        r.1 == (run_again && can_run),
{
    (output, run_again && can_run)
}

} // verus!
