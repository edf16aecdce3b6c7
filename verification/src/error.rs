//! Error results that can occur working with a stack
use vstd::prelude::*;

verus! {

/// The kinds of errors that can occur working with stacks
#[derive(Clone, Copy, Debug, PartialEq, Eq, Structural)]
pub enum ErrorKind {
    /// A stack overflow would occur if an item is pushed
    StackOverflow,
    /// A stack underflow would occur if an item is popped
    StackUnderflow,
    /// An absent stack was passed in as a parameter
    NullPointer,
    /// Invalid arguments were passed into a function.
    /// Example includes trying to initialize a stack with the bottom
    /// greater than the top.
    InvalidArguments,
    /// An unknown error type
    Unknown,
}

impl ErrorKind {
    /// The text that describes this kind of error, as a sequence of characters.
    pub open spec fn message_text(self) -> Seq<char> {
        match self {
            ErrorKind::StackOverflow => "A stack overflow occurred"@,
            ErrorKind::StackUnderflow => "A stack underflow occurred"@,
            ErrorKind::NullPointer => "A null pointer was passed in as a parameter"@,
            ErrorKind::InvalidArguments => "Invalid arguments were passed in"@,
            ErrorKind::Unknown => "An unknown error occurred"@,
        }
    }

    /// The text that describes this kind of error.
    pub fn message(&self) -> (text: &'static str)
        ensures
            text@ == self.message_text(),
    {
        match self {
            ErrorKind::StackOverflow => "A stack overflow occurred",
            ErrorKind::StackUnderflow => "A stack underflow occurred",
            ErrorKind::NullPointer => "A null pointer was passed in as a parameter",
            ErrorKind::InvalidArguments => "Invalid arguments were passed in",
            ErrorKind::Unknown => "An unknown error occurred",
        }
    }
}

/// An error that can occur when working with a stack
#[derive(Clone, Copy, Debug, PartialEq, Eq, Structural)]
pub struct Error {
    /// The kind of the error that occurred, e.g. a stack overflow
    pub kind: ErrorKind,
}

impl Error {
    /// Create a new Error with a given ErrorKind variant
    pub fn new(kind: ErrorKind) -> (error: Error)
        ensures
            error.kind == kind,
    {
        Error { kind }
    }

    /// The text that describes this error: that of its kind.
    pub fn message(&self) -> (text: &'static str)
        ensures
            text@ == self.kind.message_text(),
    {
        self.kind.message()
    }
}

} // verus!
