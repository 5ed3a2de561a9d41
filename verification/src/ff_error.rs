//! Errors of the framework: a kind, and for a custom error its cause.

use vstd::prelude::*;

verus! {

/// What an error is made of: its kind alone, or its kind and the message
/// of what caused it.
#[derive(Debug)]
pub enum ErrorType {
    Simple(&'static str),
    Custom((&'static str, String)),
}

impl ErrorType {
    /// The kind of the error.
    pub open spec fn kind(self) -> Seq<char> {
        match self {
            ErrorType::Simple(kind) => kind@,
            ErrorType::Custom(custom) => custom.0@,
        }
    }

    /// The message of the cause, where the error has one.
    pub open spec fn cause(self) -> Option<Seq<char>> {
        match self {
            ErrorType::Simple(_) => None,
            ErrorType::Custom(custom) => Some(custom.1@),
        }
    }
}

/// An error of the framework. It shows as its kind.
pub struct Error {
    error: ErrorType,
}

impl Error {
    /// The kind that the error was made with.
    pub closed spec fn kind(&self) -> Seq<char> {
        self.error.kind()
    }

    /// The message of the cause that the error was made with.
    pub closed spec fn cause(&self) -> Option<Seq<char>> {
        self.error.cause()
    }

    /// Makes a custom error of a kind and the message of its cause.
    pub fn new(kind: &'static str, error: String) -> (r: Self)
        ensures
            r.kind() == kind@,
            r.cause() == Some(error@),
    {
        Self { error: ErrorType::Custom((kind, error)) }
    }

    /// The text that the error shows as: its kind.
    pub fn to_string(&self) -> (r: String)
        ensures
            r@ == self.kind(),
    {
        let kind: &str = match &self.error {
            ErrorType::Simple(kind) => kind,
            ErrorType::Custom(custom) => custom.0,
        };
        kind.to_owned()
    }
}

} // verus!
