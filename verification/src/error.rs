//! Error values returned by the filters and texture helpers.

use vstd::prelude::*;

verus! {

/// Every fallible operation in this crate reports one of these.
///
/// `BadParam` means the caller handed a texture whose pixel format does not
/// match what the filter or helper requires; its message names the expected
/// and the actual format.  `Unknown` is reserved for failures of the
/// underlying graphics platform, which the unverified device layer maps into
/// this type; no verified function constructs it.
#[derive(Clone, Debug)]
pub enum DxFilterErr {
    /// Placeholder for success; never returned by this crate.
    NoError,
    /// A parameter was wrong or unexpected.
    BadParam(String),
    /// An internal platform error, described by the carried text.
    Unknown(String),
}

/// Result type used by every fallible operation in this crate.
pub type DxResult<T> = Result<T, DxFilterErr>;

} // verus!
