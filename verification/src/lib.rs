//! A verified library for the logic of a flow-based programming system: the JSON values
//! that flow between functions, the input queues of runtime functions, the standard
//! library functions, generation of runtime functions from compiled ones, and the
//! decisions made by the runner and by content providers.
pub mod text;
pub mod json;
pub mod json_serde;
pub mod run_list;
pub mod implementation;
pub mod input;
pub mod value;
pub mod flowstdlib;
pub mod runtime;
pub mod model;
pub mod generate;
pub mod gatherer;
pub mod runner;
pub mod execution;
pub mod metrics;
pub mod deserializers;
pub mod loader;
pub mod lib_build;
pub mod description;
pub mod provider;
