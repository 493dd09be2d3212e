//! Status codes that the platform speech bridge reports.
use vstd::prelude::*;

verus! {

/// The call succeeded.
pub const OK: i32 = 0;
/// An argument was rejected.
pub const INVALID_ARGUMENT: i32 = -1;
/// The API does not exist on the running macOS version.
pub const UNAVAILABLE_ON_THIS_MACOS: i32 = -2;
/// The call did not finish in time.
pub const TIMED_OUT: i32 = -3;
/// An I/O operation failed.
pub const IO_ERROR: i32 = -4;
/// The speech framework reported a failure.
pub const FRAMEWORK_ERROR: i32 = -5;
/// Any other failure.
pub const UNKNOWN: i32 = -99;

} // verus!
