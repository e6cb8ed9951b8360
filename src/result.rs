//! Success and error values.

use vstd::prelude::*;

verus! {

/// What went wrong.
#[derive(Debug)]
pub enum ErrorKind {
    /// A failure described by a message.
    Custom(String),
    /// A route pattern that is not a valid regular expression.
    Regex(regex::Error),
}

/// An error generated while the robot is running.
#[derive(Debug)]
pub struct Error {
    inner: ErrorKind,
}

impl Error {
    /// What went wrong.
    pub closed spec fn spec_kind(&self) -> ErrorKind {
        self.inner
    }

    /// Create a custom error from a message.
    pub fn custom(message: &str) -> (r: Self)
        ensures
            r.spec_kind() is Custom,
            r.spec_kind()->Custom_0@ == message@,
    {
        Error { inner: ErrorKind::Custom(message.to_owned()) }
    }

    /// Wraps the error of a pattern that could not be compiled.
    pub fn regex(error: regex::Error) -> (r: Self)
        ensures
            r.spec_kind() == ErrorKind::Regex(error),
    {
        Error { inner: ErrorKind::Regex(error) }
    }

    /// What went wrong.
    pub fn kind(&self) -> (r: &ErrorKind)
        ensures
            *r == self.spec_kind(),
    {
        &self.inner
    }
}

impl From<String> for Error {
    fn from(error: String) -> (r: Self) {
        Error { inner: ErrorKind::Custom(error) }
    }
}

impl vstd::std_specs::convert::FromSpecImpl<String> for Error {
    open spec fn obeys_from_spec() -> bool {
        true
    }

    closed spec fn from_spec(error: String) -> Self {
        Error { inner: ErrorKind::Custom(error) }
    }
}

impl From<regex::Error> for Error {
    fn from(error: regex::Error) -> (r: Self) {
        Error { inner: ErrorKind::Regex(error) }
    }
}

impl vstd::std_specs::convert::FromSpecImpl<regex::Error> for Error {
    open spec fn obeys_from_spec() -> bool {
        true
    }

    closed spec fn from_spec(error: regex::Error) -> Self {
        Error { inner: ErrorKind::Regex(error) }
    }
}

} // verus!
