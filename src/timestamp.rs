//! Reading timestamps, through chrono.
use chrono::Datelike;
use chrono::Timelike;
use vstd::prelude::*;
use crate::types::Timestamp;

verus! {

#[verifier::external_type_specification]
#[verifier::external_body]
pub struct ExParseError(chrono::ParseError);

/// The date and time that chrono reads from text in the `%+` (ISO 8601 with
/// offset) format, if it is in that format.
pub uninterp spec fn iso_datetime(s: Seq<char>) -> Option<Timestamp>;

/// Relies on chrono::NaiveDateTime::parse_from_str with the `%+` format: the
/// local date and time the text gives, with fields in their documented ranges.
#[verifier::external_body]
pub(crate) fn parse_iso_datetime(s: &str) -> (r: Result<Timestamp, chrono::ParseError>)
    ensures
        r is Ok <==> iso_datetime(s@) is Some,
        r is Ok ==> r->Ok_0 == iso_datetime(s@)->0 && r->Ok_0.wf(),
{
    let t = chrono::NaiveDateTime::parse_from_str(s, "%+")?;
    Ok(Timestamp {
        year: t.year(),
        month: t.month(),
        day: t.day(),
        hour: t.hour(),
        minute: t.minute(),
        second: t.second(),
        nanosecond: t.nanosecond(),
    })
}

} // verus!
