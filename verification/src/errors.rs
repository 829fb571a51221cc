//! Pre-flight error taxonomy. Per-task fetch failures are never surfaced
//! directly; the aggregator folds them into one batch-level failure.

use vstd::prelude::*;

verus! {

/// Rejections detected before any task starts.
#[derive(Clone, Copy, PartialEq, Eq, Structural, Debug)]
pub enum InputError {
    /// A malformed calendar date, or a range with `from >= to`.
    InvalidInput,
    /// An empty station set.
    EmptyInput,
}

impl InputError {
    /// A human-readable description.
    pub fn describe(&self) -> (r: String)
        ensures
            *self matches InputError::InvalidInput ==> r@ == "invalid date or date range"@,
            *self matches InputError::EmptyInput ==> r@ == "no stations selected"@,
    {
        match self {
            InputError::InvalidInput => String::from_str("invalid date or date range"),
            InputError::EmptyInput => String::from_str("no stations selected"),
        }
    }
}

} // verus!
