//! Timestamps as the engine reports them, and their textual form.
use vstd::prelude::*;

verus! {

/// `chrono::NaiveDateTime`, read as a date and time in UTC. Values of it are
/// carried through unopened.
#[verifier::external_type_specification]
#[verifier::external_body]
pub struct ExNaiveDateTime(chrono::NaiveDateTime);

/// The RFC 3339 text of an instant in UTC.
pub uninterp spec fn rfc3339_text(instant: chrono::NaiveDateTime) -> Seq<char>;

/// Renders an instant with `chrono::DateTime::to_rfc3339`, after
/// `chrono::NaiveDateTime::and_utc` has attached the UTC offset to it.
///
/// Trusted: the text depends on the instant alone, and is the one that
/// [`rfc3339_text`] names. Neither call can fail.
#[verifier::external_body]
pub(crate) fn to_rfc3339(instant: &chrono::NaiveDateTime) -> (text: String)
    ensures
        text@ == rfc3339_text(*instant),
{
    instant.and_utc().to_rfc3339()
}

} // verus!
