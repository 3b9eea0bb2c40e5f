//! The ways in which deriving a header set can fail.

use vstd::prelude::*;

verus! {

/// Why no header set was produced.
#[derive(Clone, Copy, Debug, PartialEq, Eq, Structural)]
pub enum SigningError {
    /// The request names a service other than the one this signer serves.
    UnsupportedService,
    /// The keyed-hash primitive refused its key.
    SigningPrimitive,
    /// The instant handed in is no instant of the calendar.
    Clock,
}

impl SigningError {
    /// The sentence that names the stage that failed.
    pub open spec fn description(self) -> Seq<char> {
        match self {
            SigningError::UnsupportedService => "only the `ce` service can be signed for"@,
            SigningError::SigningPrimitive => "the keyed hash refused its key"@,
            SigningError::Clock => "the instant handed in is not on the calendar"@,
        }
    }

    /// Says in words which stage failed.
    pub fn describe(&self) -> (sentence: &'static str)
        ensures
            sentence@ == self.description(),
    {
        match self {
            SigningError::UnsupportedService => "only the `ce` service can be signed for",
            SigningError::SigningPrimitive => "the keyed hash refused its key",
            SigningError::Clock => "the instant handed in is not on the calendar",
        }
    }
}

} // verus!
