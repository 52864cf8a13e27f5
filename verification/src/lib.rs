//! The application layer of DNP3 (IEEE 1815): parsing and formatting of
//! application fragments, object headers and measurement objects.
use vstd::prelude::*;

/// application layer
pub mod app;
/// errors of the library
pub mod error;
/// cursors over byte buffers
pub mod util;

verus! {

} // verus!
