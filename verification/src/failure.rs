//! Errors and what was being done when they came up.
use vstd::prelude::*;

verus! {

/// An error. `contexts` tells what was being done, beginning with the whole task
/// and ending with the step that failed.
#[derive(Debug)]
pub struct Failure<C> {
    pub contexts: Vec<String>,
    pub cause: C,
}

} // verus!
