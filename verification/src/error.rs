//! The error that a failed operation hands to its caller.

use vstd::prelude::*;
use vstd::string::StringExecFns;

verus! {

/// The message of the error that a failed fetch ends with, whatever made it
/// fail.
pub const FETCH_FAILED: &'static str = "fetch failed";

/// An error that carries nothing but a message for the user.
#[derive(Debug, PartialEq, Eq)]
pub struct Error {
    message: String,
}

impl View for Error {
    type V = Seq<char>;

    /// The message, as a sequence of characters.
    closed spec fn view(&self) -> Seq<char> {
        self.message@
    }
}

impl Clone for Error {
    fn clone(&self) -> (copy: Self)
        ensures
            copy@ == self@,
    {
        Error { message: self.message.clone() }
    }
}

impl Error {
    /// An error with the given message.
    pub fn new(message: &str) -> (e: Self)
        ensures
            e@ == message@,
    {
        Self { message: String::from_str(message) }
    }

    /// The message this error was made with.
    pub fn message(&self) -> (m: &str)
        ensures
            m@ == self@,
    {
        self.message.as_str()
    }

    /// The message as an owned string, for display.
    pub fn to_string(&self) -> (m: String)
        ensures
            m@ == self@,
    {
        self.message.clone()
    }
}

/// The value of an outcome: the text of a success or the message of a
/// failure.
pub open spec fn outcome_view(outcome: Result<String, Error>) -> Result<Seq<char>, Seq<char>> {
    match outcome {
        Ok(text) => Ok(text@),
        Err(error) => Err(error@),
    }
}

} // verus!
