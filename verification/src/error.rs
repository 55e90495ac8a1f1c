use vstd::prelude::*;
use vstd::string::*;

verus! {

/// Placeholder error taxonomy of the scaffold: a single variant meaning that
/// no error has occurred. No handler ever produces it; it exists so that the
/// shell has an error type to grow.
#[derive(Clone, Copy, Debug, PartialEq, Eq, Structural)]
pub enum Error {
    NoError,
}

impl Error {
    /// The text the shell reports for this error.
    pub fn message(&self) -> (m: String)
        ensures
            m@ == "no error"@,
    {
        String::from_str("no error")
    }
}

} // verus!
