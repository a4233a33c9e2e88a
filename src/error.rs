//! Failures reported by native calls.
use vstd::prelude::*;

verus! {

/// The kind of failure a native call reported. The native library's last
/// diagnostic message is attached where the failure is surfaced to callers.
#[derive(Copy, Clone, Debug, PartialEq, Eq, Structural)]
pub enum Failure {
    /// A native factory or query returned a null handle or pointer.
    NullResult,
    /// Attaching an optimization profile returned a negative index.
    NegativeIndex { index: i32 },
    /// A native call reported that it did not succeed.
    CallFailed,
}

/// The outcome of a native call that reports success as a boolean.
pub fn call_result(success: bool) -> (r: Result<(), Failure>)
    ensures
        success ==> r == Ok::<(), Failure>(()),
        !success ==> r == Err::<(), Failure>(Failure::CallFailed),
{
    if success {
        Ok(())
    } else {
        Err(Failure::CallFailed)
    }
}

/// The outcome of a native call that returns a handle: `present` tells
/// whether the handle is non-null.
pub fn handle_result(present: bool) -> (r: Result<(), Failure>)
    ensures
        present ==> r == Ok::<(), Failure>(()),
        !present ==> r == Err::<(), Failure>(Failure::NullResult),
{
    if present {
        Ok(())
    } else {
        Err(Failure::NullResult)
    }
}

} // verus!
