//! Time: the wall clock in whole seconds, and instants as they are written
//! into a query.

use vstd::prelude::*;

verus! {

/// A moment in UTC: whole seconds since the Unix epoch and the nanoseconds
/// into that second.
#[derive(Clone, Copy, Debug, PartialEq, Eq, Structural)]
pub struct Instant {
    pub seconds: i64,
    pub nanoseconds: u32,
}

/// An instant in RFC 3339 form, to the second and with `Z` for the zone, as
/// in `2016-06-10T00:00:00Z`; `None` where the calendar cannot hold the instant.
pub uninterp spec fn rfc3339_text(seconds: i64, nanoseconds: u32) -> Option<Seq<char>>;

/// Trusted: `time::get_time`, of which the seconds since the Unix epoch are
/// taken. The value is whatever the machine's clock says at the call, so
/// nothing is promised of it.
#[verifier::external_body]
pub(crate) fn now_seconds() -> (seconds: i64) {
    time::get_time().sec
}

/// Trusted: `chrono::DateTime::<Utc>::from_timestamp`, and on the time it
/// gives, `to_rfc3339_opts` with seconds precision and `Z`. The first gives
/// no time where the seconds or nanoseconds are out of range; the text that
/// the second writes depends on the instant alone.
#[verifier::external_body]
pub(crate) fn format_rfc3339(seconds: i64, nanoseconds: u32) -> (r: Option<String>)
    ensures
        match r {
            Some(text) => rfc3339_text(seconds, nanoseconds) == Some(text@),
            None => rfc3339_text(seconds, nanoseconds) is None,
        },
{
    match chrono::DateTime::from_timestamp(seconds, nanoseconds) {
        Some(time) => Some(time.to_rfc3339_opts(chrono::SecondsFormat::Secs, true)),
        None => None,
    }
}

impl Instant {
    /// This instant in RFC 3339 form, to the second.
    pub open spec fn text(self) -> Option<Seq<char>> {
        rfc3339_text(self.seconds, self.nanoseconds)
    }

    /// Writes the instant in RFC 3339 form, to the second; `None` where the
    /// calendar cannot hold it.
    pub fn to_rfc3339(&self) -> (r: Option<String>)
        ensures
            match r {
                Some(text) => self.text() == Some(text@),
                None => self.text() is None,
            },
    {
        format_rfc3339(self.seconds, self.nanoseconds)
    }
}

} // verus!
