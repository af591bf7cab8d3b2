//! Functions of the standard library of flows.
pub mod compose_array;
pub mod join;
pub mod route;
pub mod to_string;
