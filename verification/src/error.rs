//! The error type of the interface and the messages it carries to R.

use vstd::prelude::*;
use crate::text::concat;

verus! {

/// An error raised on the Rust side of a call from R.
#[derive(Debug)]
pub enum Error {
    /// The input had another type than the one expected.
    UnexpectedType { expected: String, actual: String },
    /// The input was not a single non-missing value.
    NotScalar,
    /// R raised an error; the field is the tagged token that resumes R's unwinding.
    Aborted(usize),
    /// The external pointer was already consumed or deleted.
    InvalidPointer,
    /// The text could not be parsed as R code.
    InvalidRCode(String),
    /// Any other error, with its message.
    GeneralError(String),
}

/// The result type used throughout the interface.
pub type Result<T> = core::result::Result<T, Error>;

/// The message of an error, as R shows it.
pub open spec fn error_message(e: Error) -> Seq<char> {
    match e {
        Error::UnexpectedType { expected, actual } => "Must be "@ + expected@ + ", not "@
            + actual@,
        Error::NotScalar => "Must be length 1 of non-missing value"@,
        Error::Aborted(_) => "Aborted due to some error"@,
        Error::InvalidPointer => "This external pointer is already consumed or deleted"@,
        Error::InvalidRCode(code) => "Failed to parse R code: "@ + code@,
        Error::GeneralError(msg) => msg@,
    }
}

/// The message of an error once the name of the argument it concerns is known,
/// or `None` where the name adds nothing.
pub open spec fn message_with_arg_name(e: Error, arg_name: Seq<char>) -> Option<Seq<char>> {
    match e {
        Error::UnexpectedType { expected, actual } => Some(
            "Argument `"@ + arg_name + "` must be "@ + expected@ + ", not "@ + actual@,
        ),
        Error::NotScalar => Some(
            "Argument `"@ + arg_name + "` must be be length 1 of non-missing value"@,
        ),
        Error::InvalidPointer => Some(
            "Argument `"@ + arg_name + "` is already consumed or deleted"@,
        ),
        _ => None,
    }
}

impl Error {
    /// An error with the given message.
    pub fn new(msg: &str) -> (e: Error)
        ensures
            e is GeneralError && e->GeneralError_0@ == msg@,
    {
        Error::GeneralError(String::from_str(msg))
    }

    /// The message of the error, as R shows it.
    pub fn to_string(&self) -> (s: String)
        ensures
            s@ == error_message(*self),
    {
        match self {
            Error::UnexpectedType { expected, actual } => {
                let s = concat(&["Must be ", expected.as_str(), ", not ", actual.as_str()]);
                proof {
                    reveal_with_fuel(crate::text::concat_spec, 5);
                }
                s
            },
            Error::NotScalar => String::from_str("Must be length 1 of non-missing value"),
            Error::Aborted(_) => String::from_str("Aborted due to some error"),
            Error::InvalidPointer => String::from_str(
                "This external pointer is already consumed or deleted",
            ),
            Error::InvalidRCode(code) => {
                let s = concat(&["Failed to parse R code: ", code.as_str()]);
                proof {
                    reveal_with_fuel(crate::text::concat_spec, 3);
                }
                s
            },
            Error::GeneralError(msg) => msg.clone(),
        }
    }

    /// Puts the name of the argument into the message of a type, scalar or
    /// pointer error; other errors are returned as they are.
    pub fn with_arg_name(self, arg_name: &str) -> (e: Error)
        ensures
            match message_with_arg_name(self, arg_name@) {
                Some(m) => e is GeneralError && e->GeneralError_0@ == m,
                None => e == self,
            },
    {
        match self {
            Error::UnexpectedType { expected, actual } => {
                let s = concat(
                    &["Argument `", arg_name, "` must be ", expected.as_str(), ", not ", actual.as_str()],
                );
                proof {
                    reveal_with_fuel(crate::text::concat_spec, 7);
                }
                Error::GeneralError(s)
            },
            Error::NotScalar => {
                let s = concat(&["Argument `", arg_name, "` must be be length 1 of non-missing value"]);
                proof {
                    reveal_with_fuel(crate::text::concat_spec, 4);
                }
                Error::GeneralError(s)
            },
            Error::InvalidPointer => {
                let s = concat(&["Argument `", arg_name, "` is already consumed or deleted"]);
                proof {
                    reveal_with_fuel(crate::text::concat_spec, 4);
                }
                Error::GeneralError(s)
            },
            other => other,
        }
    }
}

/// The error type of the `unextendr` API.
#[derive(Debug)]
pub enum UnextendrError {
    /// The input had an unexpected type; the field describes it.
    UnexpectedType(String),
    /// An error of unknown origin.
    Unknown,
}

impl UnextendrError {
    /// The message of the error.
    pub fn to_string(&self) -> (s: String)
        ensures
            s@ == match *self {
                UnextendrError::UnexpectedType(t) => "Unexpected type: "@ + t@,
                UnextendrError::Unknown => "Unknown error happened"@,
            },
    {
        match self {
            UnextendrError::UnexpectedType(t) => {
                let s = concat(&["Unexpected type: ", t.as_str()]);
                proof {
                    reveal_with_fuel(crate::text::concat_spec, 3);
                }
                s
            },
            UnextendrError::Unknown => String::from_str("Unknown error happened"),
        }
    }
}

} // verus!
