//! Everything that is believed rather than proved: the calls into other
//! crates, and into parts of the standard library for which `vstd` has no
//! contract.

use vstd::prelude::*;

verus! {

/// `chrono::NaiveDateTime`, carried through as an opaque value.
#[verifier::external_type_specification]
#[verifier::external_body]
pub struct ExNaiveDateTime(chrono::NaiveDateTime);

/// What `semver::Version::parse` makes of a text: the major, minor and patch
/// numbers where the text is a semantic version, nothing where it is not.
pub uninterp spec fn semver_triple(text: Seq<char>) -> Option<(u64, u64, u64)>;

/// How the standard library's `Debug` formatting prints a string: between
/// double quotes, with the characters that need it escaped.
pub uninterp spec fn debug_quoted(text: Seq<char>) -> Seq<char>;

/// Whether the text has the hyphenated form of a UUID: thirty-six
/// characters, hyphens as the ninth, fourteenth, nineteenth and
/// twenty-fourth of them, lower-case hexadecimal digits elsewhere.
pub open spec fn is_hyphenated_uuid(text: Seq<char>) -> bool {
    &&& text.len() == 36
    &&& forall|i: int|
        0 <= i < 36 ==> if i == 8 || i == 13 || i == 18 || i == 23 {
            #[trigger] text[i] == '-'
        } else {
            ('0' <= text[i] <= '9') || ('a' <= text[i] <= 'f')
        }
}

/// `str`'s equality test from the standard library: two string slices are
/// equal exactly when they hold the same characters.
pub assume_specification[ <str as PartialEq>::eq ](a: &str, b: &str) -> (same: bool)
    ensures
        same == (a@ == b@),
;

/// Formats a string with `{:?}`, as `format!` from the standard library does.
/// The result depends on the characters alone and is [`debug_quoted`] of them.
#[verifier::external_body]
pub(crate) fn debug_quote(text: &str) -> (quoted: String)
    ensures
        quoted@ == debug_quoted(text@),
{
    format!("{:?}", text)
}

/// Parses a text with `semver::Version::parse` and hands out the three
/// numbers of the version. Parsing reads the text alone, so the result is
/// [`semver_triple`] of it; a text that is no semantic version gives `None`.
#[verifier::external_body]
pub(crate) fn parse_semver(text: &str) -> (triple: Option<(u64, u64, u64)>)
    ensures
        triple == semver_triple(text@),
{
    match semver::Version::parse(text) {
        Ok(version) => Some((version.major, version.minor, version.patch)),
        Err(_) => None,
    }
}

/// Asks `os_info::get` for the host's operating system and prints its type
/// and its version with their `Display` impls. The answer depends on the
/// machine, so nothing is claimed of the two strings; where the lookup
/// fails `os_info` answers with its `Unknown` values, which print as text.
#[verifier::external_body]
pub(crate) fn host_os() -> (os: (String, String)) {
    let info = os_info::get();
    (info.os_type().to_string(), info.version().to_string())
}

/// Draws a random version 4 identifier with `uuid::Uuid::new_v4` and prints
/// it with its `Display` impl. Which identifier comes is left open; that
/// `uuid` prints every identifier in the hyphenated lower-case form is all
/// that is claimed. `uuid` stops the program if the operating system cannot
/// supply random bytes.
#[verifier::external_body]
pub(crate) fn random_id() -> (id: String)
    ensures
        is_hyphenated_uuid(id@),
{
    uuid::Uuid::new_v4().to_string()
}

/// Prints a `chrono::NaiveDateTime` with its `Debug` impl, which is the ISO
/// 8601 text that chrono also serializes it as. The date and time are
/// opaque here, so nothing is claimed of the text.
#[verifier::external_body]
pub(crate) fn timestamp_text(at: &chrono::NaiveDateTime) -> (text: String) {
    format!("{:?}", at)
}

} // verus!
