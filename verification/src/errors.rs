//! Failure kinds of the engine core.

use crate::codec::ParseError;
use vstd::prelude::*;

verus! {

/// Failure of a job as a whole.
///
/// Construction failures surface at submission time, before any data flows.
/// A correlation failure is a fatal engine invariant violation: it indicates
/// a routing bug in how the dataflow graph was constructed, not a
/// recoverable per-record condition.
#[derive(PartialEq, Eq, Debug)]
pub enum BuildJobError {
    /// The dataflow graph could not be constructed.
    Construction(String),
    /// A correlated record's tag matched no in-flight correlation group.
    Correlation,
    /// The filter compiler collaborator rejected its input.
    DecodeFilter(ParseError),
}

impl From<ParseError> for BuildJobError {
    fn from(e: ParseError) -> (r: BuildJobError) {
        BuildJobError::DecodeFilter(e)
    }
}

impl vstd::std_specs::convert::FromSpecImpl<ParseError> for BuildJobError {
    open spec fn obeys_from_spec() -> bool {
        true
    }

    open spec fn from_spec(e: ParseError) -> BuildJobError {
        BuildJobError::DecodeFilter(e)
    }
}

} // verus!
