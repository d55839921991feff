use vstd::prelude::*;

verus! {

/// Why a capture did not go through.
#[derive(Debug, PartialEq, Eq)]
pub enum Error {
    /// The transport could not deliver the request.
    Connection(String),
    /// A value could not be encoded as JSON.
    Serialization(String),
}

impl Error {
    /// The text that came with the failure.
    pub fn message(&self) -> (text: &String)
        ensures
            self matches Error::Connection(m) ==> text@ == m@,
            self matches Error::Serialization(m) ==> text@ == m@,
    {
        match self {
            Error::Connection(m) => m,
            Error::Serialization(m) => m,
        }
    }
}

} // verus!
