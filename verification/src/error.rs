//! The error every fallible operation of the library reports.

use vstd::prelude::*;

verus! {

/// A user-facing error message (the client shows it verbatim).
#[derive(Debug, Clone)]
pub struct ThemeError(pub String);

impl ThemeError {
    /// The message.
    pub fn to_string(&self) -> (s: String)
        ensures
            s@ == self.0@,
    {
        self.0.clone()
    }
}

/// An error carrying the given literal message.
pub fn theme_error(message: &str) -> (e: ThemeError)
    ensures
        e.0@ == message@,
{
    ThemeError(message.to_owned())
}

} // verus!
