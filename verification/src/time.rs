//! Instants, as the library carries them, and the reading of RFC 3339 text.

use vstd::prelude::*;

verus! {

/// An instant: whole seconds since the Unix epoch, and the nanoseconds since
/// the last whole second.
#[derive(Debug, Clone, Copy, PartialEq, Eq, Structural)]
pub struct Timestamp {
    pub seconds: i64,
    pub nanos: u32,
}

/// What `chrono` reads from a text as an RFC 3339 date and time: `None`
/// where the text is none, else the instant as seconds since the Unix epoch
/// and nanoseconds since the last whole second.
pub uninterp spec fn rfc3339_instant(text: Seq<char>) -> Option<(i64, u32)>;

/// The instant that the text spells as an RFC 3339 date and time.
pub open spec fn instant_of(text: Seq<char>) -> Option<Timestamp> {
    match rfc3339_instant(text) {
        Some((seconds, nanos)) => Some(Timestamp { seconds, nanos }),
        None => None,
    }
}

/// `chrono::DateTime::parse_from_rfc3339`: the result is the named reading
/// of the text, taken apart by `timestamp` and `timestamp_subsec_nanos`.
#[verifier::external_body]
fn read_rfc3339(text: &str) -> (instant: Option<(i64, u32)>)
    ensures
        instant == rfc3339_instant(text@),
{
    match chrono::DateTime::parse_from_rfc3339(text) {
        Ok(moment) => Some((moment.timestamp(), moment.timestamp_subsec_nanos())),
        Err(_) => None,
    }
}

/// The instant that `text` spells as an RFC 3339 date and time, if it
/// spells one.
pub fn parse_timestamp(text: &str) -> (instant: Option<Timestamp>)
    ensures
        instant == instant_of(text@),
{
    match read_rfc3339(text) {
        Some((seconds, nanos)) => Some(Timestamp { seconds, nanos }),
        None => None,
    }
}

/// The instant that an optional text spells; none where there is no text.
pub fn parse_optional_timestamp(text: &Option<String>) -> (instant: Option<Timestamp>)
    ensures
        instant == match text {
            Some(t) => instant_of(t@),
            None => None,
        },
{
    match text {
        Some(t) => parse_timestamp(t.as_str()),
        None => None,
    }
}

} // verus!
