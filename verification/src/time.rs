//! Timestamps of the service, which arrive as text.

use vstd::prelude::*;

verus! {

/// `chrono::NaiveDateTime`, a date and time without time zone, taken as an opaque
/// type that the bindings carry through.
#[verifier::external_type_specification]
#[verifier::external_body]
pub struct ExNaiveDateTime(chrono::NaiveDateTime);

/// The date and time that chrono reads from `text`, which it expects in the form
/// `2015-09-18T23:56:04` with an optional fraction of a second; `None` where chrono
/// reads none.
pub uninterp spec fn datetime_of(text: Seq<char>) -> Option<chrono::NaiveDateTime>;

/// `<chrono::NaiveDateTime as FromStr>::from_str`: the date and time read from `text`,
/// which depends on the characters of `text` alone; nothing where the parse fails.
#[verifier::external_body]
pub(crate) fn parse_datetime(text: &str) -> (parsed: Option<chrono::NaiveDateTime>)
    ensures
        parsed == datetime_of(text@),
{
    text.parse::<chrono::NaiveDateTime>().ok()
}

} // verus!
