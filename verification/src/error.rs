//! The ways in which a command can fail.

use vstd::prelude::*;
use vstd::string::*;

verus! {

/// The class of a failure.
#[derive(Debug, Clone, Copy, PartialEq, Eq, Structural)]
pub enum ErrorKind {
    /// No session is stored, or none is the default.
    NotConfigured,
    /// The login was answered without a single cookie.
    AuthFailure,
    /// The service rejected the stored cookie.
    SessionExpired,
    /// What the user gave cannot be used.
    InvalidInput,
    /// The url was never stored.
    UnknownEndpoint,
    /// The request did not get through, or was answered with an error status.
    Transport,
    /// The answer does not have the expected shape.
    Decode,
}

/// A failure and the line that tells the user about it.
#[derive(Debug, PartialEq, Eq)]
pub struct Failure {
    pub kind: ErrorKind,
    pub message: String,
}

impl View for Failure {
    type V = (ErrorKind, Seq<char>);

    open spec fn view(&self) -> (ErrorKind, Seq<char>) {
        (self.kind, self.message@)
    }
}

impl ErrorKind {
    /// Whether the program leaves at once, without saving the store: only
    /// a rejected cookie does that.
    pub open spec fn spec_is_fatal(self) -> bool {
        self == ErrorKind::SessionExpired
    }

    /// Whether the program leaves at once, without saving the store.
    #[verifier::when_used_as_spec(spec_is_fatal)]
    pub fn is_fatal(self) -> (r: bool)
        ensures
            r == self.spec_is_fatal(),
    {
        match self {
            ErrorKind::SessionExpired => true,
            _ => false,
        }
    }

    /// The exit code that reports a failure of this class: 0 for a url that
    /// was never stored, which is only a notice, and 1 for everything else.
    pub open spec fn spec_exit_code(self) -> u8 {
        if self == ErrorKind::UnknownEndpoint {
            0
        } else {
            1
        }
    }

    /// The exit code that reports a failure of this class.
    #[verifier::when_used_as_spec(spec_exit_code)]
    pub fn exit_code(self) -> (r: u8)
        ensures
            r == self.spec_exit_code(),
    {
        match self {
            ErrorKind::UnknownEndpoint => 0,
            _ => 1,
        }
    }
}

/// A failure of the given class with the given message.
pub fn failure(kind: ErrorKind, message: &str) -> (r: Failure)
    ensures
        r@ == (kind, message@),
{
    Failure { kind, message: String::from_str(message) }
}

} // verus!
