//! The categories under which failures are counted.

use vstd::prelude::*;

verus! {

/// The error category of a request metric.
#[derive(Debug, Clone, Copy, PartialEq, Eq, Structural)]
pub enum MetricErrorType {
    Validation,
    NotFound,
    Overload,
    Unavailable,
    Cancelled,
    NotImplemented,
    Internal,
}

} // verus!
