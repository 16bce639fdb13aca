use vstd::prelude::*;

verus! {

/// A point in time in UTC: whole seconds since the Unix epoch and the
/// nanoseconds past that second.
#[derive(Debug, Clone, Copy, PartialEq, Eq, Structural)]
pub struct Timestamp {
    pub secs: i64,
    pub nanos: u32,
}

/// Reads the system clock through `chrono::Utc::now`.
///
/// The result depends on the clock, so nothing is promised of its value.
#[verifier::external_body]
pub(crate) fn now() -> (t: Timestamp) {
    let dt = chrono::Utc::now();
    Timestamp { secs: dt.timestamp(), nanos: dt.timestamp_subsec_nanos() }
}

/// The instant, as whole seconds since the Unix epoch and nanoseconds past
/// that second, that `text` denotes in RFC 3339 as chrono reads it; `None`
/// where chrono does not accept the text.
pub uninterp spec fn rfc3339_instant(text: Seq<char>) -> Option<(i64, u32)>;

/// The RFC 3339 text chrono writes for the instant (`secs`, `nanos`);
/// `None` where the instant lies outside chrono's range.
pub uninterp spec fn rfc3339_text(secs: i64, nanos: u32) -> Option<Seq<char>>;

/// Reads RFC 3339 text through `chrono::DateTime::parse_from_rfc3339`,
/// taking the instant as seconds and nanoseconds since the epoch.
///
/// Claims that the result is the instant `rfc3339_instant` names for the
/// text, and `None` exactly where chrono refuses the text.
#[verifier::external_body]
pub(crate) fn parse_rfc3339(text: &str) -> (r: Option<Timestamp>)
    ensures
        match r {
            Some(t) => rfc3339_instant(text@) == Some((t.secs, t.nanos)),
            None => rfc3339_instant(text@) is None,
        },
{
    match chrono::DateTime::parse_from_rfc3339(text) {
        Ok(dt) => Some(Timestamp { secs: dt.timestamp(), nanos: dt.timestamp_subsec_nanos() }),
        Err(_) => None,
    }
}

/// The instant lies in the years 0 to 9999 and is not within a leap
/// second: chrono writes it with a four-digit year and reads that text
/// back as the same instant.
pub open spec fn storable_instant(t: Timestamp) -> bool {
    0 <= t.secs < 253402300800 && t.nanos < 1_000_000_000
}

/// Writes an instant as RFC 3339 text through
/// `chrono::DateTime::from_timestamp` and `to_rfc3339`.
///
/// Claims that the result is the text `rfc3339_text` names for the instant,
/// and `None` exactly where chrono has no date for it; that chrono has a
/// date for every instant in the years 0 to 9999; and that for an
/// instant in the years 0 to 9999 outside a leap second, the text (a
/// four-digit year, the full fraction and `+00:00`) reads back through
/// `parse_rfc3339` as the same instant.
#[verifier::external_body]
pub(crate) fn format_rfc3339(t: Timestamp) -> (r: Option<String>)
    ensures
        match r {
            Some(s) => rfc3339_text(t.secs, t.nanos) == Some(s@),
            None => rfc3339_text(t.secs, t.nanos) is None,
        },
        storable_instant(t) ==> r is Some,
        r matches Some(s) ==> (storable_instant(t) ==> rfc3339_instant(s@) == Some((t.secs, t.nanos))),
{
    match chrono::DateTime::from_timestamp(t.secs, t.nanos) {
        Some(dt) => Some(dt.to_rfc3339()),
        None => None,
    }
}

} // verus!
