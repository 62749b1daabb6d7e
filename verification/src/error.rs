//! The one way in which building a field can fail.

use vstd::prelude::*;

verus! {

/// Why a field could not be built.
#[derive(Debug, Clone, Copy, PartialEq, Eq, Structural)]
pub enum FieldError {
    /// The grid has fewer than two cells, so that no cell could stay safe
    /// beside a mine, or more cells than can be numbered.
    InvalidDimensions,
}

impl FieldError {
    /// A sentence that describes the error.
    pub fn message(&self) -> (text: String)
        ensures
            text@ == "the grid must have at least two cells"@,
    {
        "the grid must have at least two cells".to_string()
    }
}

} // verus!
