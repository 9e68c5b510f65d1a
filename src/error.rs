use vstd::prelude::*;

verus! {

/// What can go wrong when using the DSP service.
#[derive(Debug, Clone, Copy, PartialEq, Eq, Structural)]
pub enum Error {
    /// The service could not be brought up; holds the result code it reported.
    Init(i32),
    /// The service is already owned by a live handle in this process.
    AlreadyInitialized,
    /// Flushing a buffer from the CPU cache failed; holds the result code.
    CacheFlush(i32),
    /// A channel index outside `0..=23`; holds the index that was asked for.
    InvalidChannel(i32),
}

/// A native result code signals failure exactly when it is negative.
pub open spec fn code_failed(code: i32) -> bool {
    code < 0
}

/// Whether a native result code reports a failure.
pub fn is_failure(code: i32) -> (r: bool)
    ensures
        r == code_failed(code),
{
    code < 0
}

} // verus!
