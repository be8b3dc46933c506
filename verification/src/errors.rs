use vstd::prelude::*;

verus! {

/// What went wrong.
#[derive(Clone, Copy, Debug, PartialEq, Eq, Structural)]
pub enum ErrorKind {
    /// The byte at the program counter is not an instruction this core runs.
    UnknownInstruction,
}

/// An error of the CPU core: its kind and a message for humans.
#[derive(Debug)]
pub struct Error {
    kind: ErrorKind,
    message: String,
}

impl Error {
    /// Builds an error from its kind and its message.
    pub fn new(kind: ErrorKind, message: String) -> (e: Error)
        ensures
            e.kind() == kind,
            e.message_view() == message@,
    {
        Error { kind, message }
    }

    /// The kind of this error.
    pub closed spec fn kind(&self) -> ErrorKind {
        self.kind
    }

    /// The message of this error, as characters.
    pub closed spec fn message_view(&self) -> Seq<char> {
        self.message@
    }

    /// The kind of this error.
    pub fn error_kind(&self) -> (k: ErrorKind)
        ensures
            k == self.kind(),
    {
        self.kind
    }

    /// The message of this error.
    pub fn message(&self) -> (m: &str)
        ensures
            m@ == self.message_view(),
    {
        self.message.as_str()
    }
}

} // verus!
