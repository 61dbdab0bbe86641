//! What can go wrong when requests and responses are interpreted.
use std::borrow::Cow;
use vstd::prelude::*;

verus! {

/// An error of this library.
#[derive(Debug)]
pub enum Error {
    /// A peer, or a caller, broke the protocol. The text says how.
    Protocol(Cow<'static, str>),
}

impl Error {
    /// The text of the error.
    pub open spec fn text(self) -> Seq<char> {
        match self {
            Error::Protocol(text) => text@,
        }
    }

    /// A protocol error with a fixed text.
    pub fn protocol(text: &'static str) -> (error: Error)
        ensures
            error is Protocol,
            error.text() == text@,
    {
        Error::Protocol(Cow::Borrowed(text))
    }
}

} // verus!
