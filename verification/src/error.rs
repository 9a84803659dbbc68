use vstd::prelude::*;

verus! {

/// Error value returned by the fallible buffer operations: a capacity or
/// bounds violation, or an over-long string length prefix.  It carries a
/// human-readable message describing what went wrong.
#[derive(Debug, Clone, PartialEq)]
pub struct ByteBufError {
    pub message: String,
}

impl ByteBufError {
    /// Wraps a message in an error value.
    pub fn new(message: String) -> (r: ByteBufError)
        ensures
            r.message == message,
    {
        ByteBufError { message }
    }
}

} // verus!
