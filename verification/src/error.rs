//! The library's error type: a kind and a message.

use vstd::prelude::*;

verus! {

/// The area an error comes from.
#[derive(Debug, Clone, Copy, PartialEq, Eq, Structural)]
pub enum ErrorKind {
    /// Configuration values and files
    Config,
    /// Project validation
    Validation,
    /// Project templates
    Template,
    /// The safety pipeline
    Safety,
}

/// An error with its kind and a human-readable message.
#[derive(Debug)]
pub struct Error {
    /// The area the error comes from
    pub kind: ErrorKind,
    /// What went wrong
    pub message: String,
}

impl View for Error {
    type V = (ErrorKind, Seq<char>);

    open spec fn view(&self) -> (ErrorKind, Seq<char>) {
        (self.kind, self.message@)
    }
}

impl Error {
    /// A configuration error with the given message.
    pub fn config(message: String) -> (e: Error)
        ensures
            e@ == (ErrorKind::Config, message@),
    {
        Error { kind: ErrorKind::Config, message }
    }

    /// A validation error with the given message.
    pub fn validation(message: String) -> (e: Error)
        ensures
            e@ == (ErrorKind::Validation, message@),
    {
        Error { kind: ErrorKind::Validation, message }
    }

    /// A template error with the given message.
    pub fn template(message: String) -> (e: Error)
        ensures
            e@ == (ErrorKind::Template, message@),
    {
        Error { kind: ErrorKind::Template, message }
    }

    /// A safety-pipeline error with the given message.
    pub fn safety(message: String) -> (e: Error)
        ensures
            e@ == (ErrorKind::Safety, message@),
    {
        Error { kind: ErrorKind::Safety, message }
    }
}

} // verus!
