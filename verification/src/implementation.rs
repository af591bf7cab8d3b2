//! What a function implementation returns besides its output: whether it may run again.
use vstd::prelude::*;

verus! {

/// Whether an implementation may be run again.
pub type RunAgain = bool;

/// The implementation may be run again.
pub const RUN_AGAIN: RunAgain = true;

/// The implementation must not be run again.
pub const DONT_RUN_AGAIN: RunAgain = false;

} // verus!
