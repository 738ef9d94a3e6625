//! RFC 3339 timestamps, read with the `time` crate.

use vstd::prelude::*;

verus! {

/// An instant with its UTC offset, as plain numbers: nanoseconds since the
/// Unix epoch, and the offset from UTC in whole seconds.
///
/// Two timestamps are `==` when they stand for the same instant, whatever
/// their offsets, as for the `time` crate's `OffsetDateTime`.
#[derive(Clone, Copy, Debug)]
pub struct Timestamp {
    pub unix_nanos: i128,
    pub utc_offset_seconds: i32,
}

impl PartialEq for Timestamp {
    fn eq(&self, other: &Self) -> (r: bool) {
        self.unix_nanos == other.unix_nanos
    }
}

impl vstd::std_specs::cmp::PartialEqSpecImpl for Timestamp {
    open spec fn obeys_eq_spec() -> bool {
        true
    }

    open spec fn eq_spec(&self, other: &Self) -> bool {
        self.unix_nanos == other.unix_nanos
    }
}

impl Eq for Timestamp {
}

/// What `time::OffsetDateTime::parse(text, &Rfc3339)` yields for `text`:
/// the instant as (Unix nanoseconds, UTC offset in seconds), or the
/// `Display` text of its parse error where the text is not RFC 3339.
pub uninterp spec fn rfc3339_parse(text: Seq<char>) -> Result<(i128, i32), Seq<char>>;

/// The instant RFC 3339 text stands for, or `None` where it is not RFC 3339.
pub open spec fn rfc3339_instant(text: Seq<char>) -> Option<(i128, i32)> {
    match rfc3339_parse(text) {
        Ok(p) => Some(p),
        Err(_) => None,
    }
}

/// The timestamp an RFC 3339 parse result stands for.
pub open spec fn timestamp_of(p: (i128, i32)) -> Timestamp {
    Timestamp { unix_nanos: p.0, utc_offset_seconds: p.1 }
}

/// Parses RFC 3339 text with `time::OffsetDateTime::parse` and the
/// `Rfc3339` description, carrying the instant as its Unix nanoseconds and
/// whole-second UTC offset, and a parse error as its `Display` text.
/// Trusted: the result is what [`rfc3339_parse`] names for the text.
#[verifier::external_body]
fn parse_rfc3339(text: &str) -> (r: Result<Timestamp, String>)
    ensures
        match (r, rfc3339_parse(text@)) {
            (Ok(t), Ok(p)) => t.unix_nanos == p.0 && t.utc_offset_seconds == p.1,
            (Err(e), Err(m)) => e@ == m,
            _ => false,
        },
{
    match time::OffsetDateTime::parse(text, &time::format_description::well_known::Rfc3339) {
        Ok(t) => Ok(Timestamp { unix_nanos: t.unix_timestamp_nanos(), utc_offset_seconds: t.offset().whole_seconds() }),
        Err(e) => Err(e.to_string()),
    }
}

/// Parses RFC 3339 text into a timestamp, or the message of the parse error.
pub fn timestamp_from_rfc3339(text: &str) -> (r: Result<Timestamp, String>)
    ensures
        match rfc3339_parse(text@) {
            Ok(p) => r matches Ok(t) && t.unix_nanos == p.0 && t.utc_offset_seconds == p.1,
            Err(m) => r matches Err(e) && e@ == m,
        },
{
    parse_rfc3339(text)
}

/// The `time` crate's date-time with an offset.
#[verifier::external_type_specification]
#[verifier::external_body]
pub struct ExOffsetDateTime(time::OffsetDateTime);

/// The `time` crate's formatting error.
#[verifier::external_type_specification]
#[verifier::external_body]
pub struct ExTimeFormatError(time::error::Format);

/// Reads the clock with `time::OffsetDateTime::now_utc`. Nothing is stated
/// of the instant it returns.
#[verifier::external_body]
fn utc_now() -> time::OffsetDateTime {
    time::OffsetDateTime::now_utc()
}

/// Formats an instant with `time::OffsetDateTime::format` and the `Rfc3339`
/// description. Trusted: text it produces is RFC 3339 text, which the
/// same crate's `Rfc3339` parse accepts; nothing more is stated of the text
/// or of when it fails.
#[verifier::external_body]
fn format_rfc3339(t: time::OffsetDateTime) -> (r: Result<String, time::error::Format>)
    ensures
        r matches Ok(s) ==> rfc3339_instant(s@) is Some,
{
    t.format(&time::format_description::well_known::Rfc3339)
}

/// The current UTC time as RFC 3339 text, as receipts and migrations record
/// it. The instant depends on the clock; what is stated is that the text,
/// when formatting succeeds, reads back as an RFC 3339 timestamp, so a row
/// written with it decodes.
pub fn rfc3339_now() -> (r: Result<String, time::error::Format>)
    ensures
        r matches Ok(s) ==> rfc3339_instant(s@) is Some,
{
    format_rfc3339(utc_now())
}

} // verus!
