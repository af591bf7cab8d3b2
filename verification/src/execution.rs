//! Execution of jobs: the names of the executors that run them, and the output produced when
//! a job has run, or panicked.
use vstd::prelude::*;
use crate::implementation::RunAgain;
use crate::json::JsonValue;
use crate::model::OutputConnection;
use crate::text::{concat, decimal, u64_to_decimal};

verus! {

/// The text `Executor #`.
pub open spec fn executor_prefix() -> Seq<char> {
    seq!['E', 'x', 'e', 'c', 'u', 't', 'o', 'r', ' ', '#']
}

/// The name of the executor numbered `n`: `Executor #n`.
pub open spec fn executor_name(n: nat) -> Seq<char> {
    executor_prefix() + decimal(n)
}

/// The names of the executors to start, one for each executor numbered from 0, in order.
pub fn executor_names(number_of_executors: usize) -> (names: Vec<String>)
    ensures
        names@.len() == number_of_executors,
        forall|i: int| 0 <= i < number_of_executors ==> #[trigger] names@[i]@ == executor_name(i as nat),
{
    let mut names: Vec<String> = Vec::new();
    let mut executor_number: usize = 0;
    while executor_number < number_of_executors
        invariant
            executor_number <= number_of_executors,
            names@.len() == executor_number,
            forall|i: int| 0 <= i < executor_number ==> #[trigger] names@[i]@ == executor_name(i as nat),
        decreases number_of_executors - executor_number,
    {
        proof {
            reveal_strlit("Executor #");
        }
        let name = concat("Executor #", u64_to_decimal(executor_number as u64).as_str());
        names.push(name);
        executor_number = executor_number + 1;
    }
    names
}

/// A job: a set of inputs for a function to be run with, and where its output goes.
pub struct Job {
    pub job_id: usize,
    pub function_id: usize,
    pub flow_id: usize,
    pub input_set: Vec<JsonValue>,
    pub destinations: Vec<OutputConnection>,
}

/// The output of a job that has been run.
pub struct Output {
    pub job_id: usize,
    pub function_id: usize,
    pub flow_id: usize,
    pub input_values: Vec<JsonValue>,
    pub result: (Option<JsonValue>, RunAgain),
    pub destinations: Vec<OutputConnection>,
    pub error: Option<String>,
}

/// The text `Execution panicked`.
pub open spec fn panicked_text() -> Seq<char> {
    seq!['E', 'x', 'e', 'c', 'u', 't', 'i', 'o', 'n', ' ', 'p', 'a', 'n', 'i', 'c', 'k', 'e', 'd']
}

/// The output of a job, from the result of running its implementation, or `None` if the
/// implementation panicked: then there is no output value, the function does not run again,
/// and the error says the execution panicked.
pub fn job_output(job: Job, run: Option<(Option<JsonValue>, RunAgain)>) -> (output: Output)
    ensures
        output.job_id == job.job_id,
        output.function_id == job.function_id,
        output.flow_id == job.flow_id,
        output.input_values == job.input_set,
        output.destinations == job.destinations,
        (match run {
            Some(result) => output.result == result && output.error is None,
            None => output.result.0 is None && output.result.1 == false && output.error is Some
                && output.error->0@ == panicked_text(),
        }),
{
    let (result, error) = match run {
        Some(result) => (result, None),
        None => {
            proof {
                reveal_strlit("Execution panicked");
            }
            ((None, false), Some(String::from_str("Execution panicked")))
        },
    };
    Output {
        job_id: job.job_id,
        function_id: job.function_id,
        flow_id: job.flow_id,
        input_values: job.input_set,
        result,
        destinations: job.destinations,
        error,
    }
}

} // verus!
