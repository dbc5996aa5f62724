//! The error type of configuration loading: a message.

use vstd::prelude::*;

verus! {

/// An error that carries nothing but its description.
#[derive(Debug)]
pub struct StringError {
    details: String,
}

impl StringError {
    /// The text of the error.
    pub closed spec fn view(&self) -> Seq<char> {
        self.details@
    }

    /// An error with the given description.
    pub fn new(details: String) -> (error: Self)
        ensures
            error@ == details@,
    {
        Self { details }
    }

    /// The description the error was made with.
    pub fn description(&self) -> (text: &str)
        ensures
            text@ == self@,
    {
        self.details.as_str()
    }

    /// The description as an owned string, as the error prints.
    pub fn to_string(&self) -> (text: String)
        ensures
            text@ == self@,
    {
        self.details.clone()
    }
}

} // verus!
