//! Classification of request failures for an HTTP service.
//!
//! An error and its causes ([`chain::ErrorChain`]), or an event of a backend's
//! response stream ([`event::Annotated`]), is turned into one
//! [`problem::HttpProblem`]: a category, a status, a message that is safe to show
//! to a client, and a diagnostic that is not. [`laws`] states what holds of the
//! classification as a whole.

pub mod chain;
pub mod event;
pub mod laws;
pub mod metrics;
pub mod overload;
pub mod problem;
pub mod sanitized;
pub mod status;
pub mod text;
