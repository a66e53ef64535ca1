//! The one recoverable error the engine surfaces to callers.

use vstd::prelude::*;

verus! {

/// Construction failure: a generator was requested with an invalid
/// configuration (a zero buffer size, wave size, or loop delay).
///
/// This is the only recoverable error of the engine; everything else that can
/// go wrong during generation is either a timing-domain event (buffer
/// underrun, which is ordinary backpressure) or a defect that verification
/// rules out.
#[derive(Clone, Copy, PartialEq, Eq, Debug, Structural)]
pub enum Error {
    Initialization,
}

impl Error {
    /// The initialization error, as reported by a failed construction.
    pub fn new() -> (e: Error)
        ensures
            e == Error::Initialization,
    {
        Error::Initialization
    }

    /// A short human-readable description of the error.
    pub fn message(&self) -> (m: &'static str)
        ensures
            self is Initialization ==> m@ == "generator initialization failed"@,
    {
        match self {
            Error::Initialization => "generator initialization failed",
        }
    }
}

} // verus!
