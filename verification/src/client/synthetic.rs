//! Failures that the library raises on behalf of the program: panics.

use crate::event::exception::{exception_properties, Exception, ExceptionView, Failure};
use crate::trusted::{debug_quote, debug_quoted};
use vstd::prelude::*;
use vstd::string::StringExecFns;

verus! {

/// What the payload of a panic is reported as when it is no string.
pub const UNKNOWN_PANIC: &'static str = "Box<Any>";

/// A failure that the library itself raises on behalf of the program.
#[derive(Debug, PartialEq, Eq)]
pub enum SyntheticError {
    /// The program panicked with the message.
    Panic(String),
}

/// How a panic with the message prints with `{}`.
pub open spec fn panic_display(message: Seq<char>) -> Seq<char> {
    "Panic: "@ + message
}

/// How a panic prints with `{:?}`, given its message in quotes.
pub open spec fn panic_debug_around(quoted_message: Seq<char>) -> Seq<char> {
    "Panic("@ + quoted_message + ")"@
}

/// How a panic with the message prints with `{:?}`.
pub open spec fn panic_debug(message: Seq<char>) -> Seq<char> {
    panic_debug_around(debug_quoted(message))
}

impl SyntheticError {
    /// The message that the failure carries.
    pub open spec fn message(self) -> Seq<char> {
        match self {
            SyntheticError::Panic(message) => message@,
        }
    }

    /// The failure as it is shown to a reader.
    pub fn to_string(&self) -> (text: String)
        ensures
            text@ == panic_display(self.message()),
    {
        match self {
            SyntheticError::Panic(message) => "Panic: ".to_owned().concat(message.as_str()),
        }
    }

    /// How the failure prints, for an exception to be made of it.
    pub fn to_failure(&self) -> (failure: Failure)
        ensures
            failure.debug@ == panic_debug(self.message()),
            failure.display@ == panic_display(self.message()),
    {
        match self {
            SyntheticError::Panic(message) => {
                let quoted = debug_quote(message.as_str());
                self.to_failure_around(quoted.as_str())
            },
        }
    }

    /// How the failure prints, given its message in quotes.
    pub fn to_failure_around(&self, quoted_message: &str) -> (failure: Failure)
        ensures
            failure.debug@ == panic_debug_around(quoted_message@),
            failure.display@ == panic_display(self.message()),
    {
        let debug = "Panic(".to_owned().concat(quoted_message).concat(")");
        Failure { debug, display: self.to_string() }
    }
}

/// The message of a panic, given its payload as a string slice and as an
/// owned string, each where the payload is one.
pub open spec fn panic_message(text: Option<&str>, owned: Option<&String>) -> Seq<char> {
    match text {
        Some(t) => t@,
        None => match owned {
            Some(o) => o@,
            None => UNKNOWN_PANIC@,
        },
    }
}

/// The message of a panic: the payload where it is a string slice, else the
/// payload where it is an owned string, else a placeholder.
pub fn message_from_panic_payload<'a>(text: Option<&'a str>, owned: Option<&'a String>) -> (message:
    &'a str)
    ensures
        message@ == panic_message(text, owned),
{
    match text {
        Some(t) => t,
        None => match owned {
            Some(o) => o.as_str(),
            None => UNKNOWN_PANIC,
        },
    }
}

/// The exception that reports a panic with the message for the distinct id.
pub fn exception_from_panic_message(message: &str, distinct_id: &str) -> (exception: Exception)
    ensures
        exception@ == (ExceptionView {
            properties: exception_properties(
                panic_debug(message@),
                panic_display(message@),
                distinct_id@,
                exception@.properties.os,
                exception@.properties.os_version,
            ),
            timestamp: None,
        }),
{
    let error = SyntheticError::Panic(message.to_owned());
    let failure = error.to_failure();
    Exception::new(&failure, distinct_id)
}

} // verus!
