//! Points in time.

use vstd::prelude::*;

verus! {

/// A point in time in UTC: whole seconds since 1970 and the nanoseconds behind them.
#[derive(Debug, Clone, Copy, PartialEq, Eq, Structural)]
pub struct Timestamp {
    pub seconds: i64,
    pub nanos: u32,
}

impl Timestamp {
    /// Whether the nanoseconds are less than a second.
    pub open spec fn valid(self) -> bool {
        self.nanos < 1_000_000_000
    }

    /// The nanoseconds since 1970.
    pub open spec fn instant(self) -> int {
        self.seconds * 1_000_000_000 + self.nanos
    }

    /// Whether this point is not later than another one.
    pub fn not_after(self, other: Timestamp) -> (r: bool)
        requires
            self.valid(),
            other.valid(),
        ensures
            r == (self.instant() <= other.instant()),
    {
        self.seconds < other.seconds || (self.seconds == other.seconds && self.nanos
            <= other.nanos)
    }

    /// Whether more than a number of seconds lie between an earlier point and this one.
    pub fn is_older_than(earlier: Timestamp, now: Timestamp, seconds: u32) -> (r: bool)
        ensures
            r == (now.instant() - earlier.instant() > seconds * 1_000_000_000),
    {
        let a: i128 = (earlier.seconds as i128) * 1_000_000_000 + earlier.nanos as i128;
        let b: i128 = (now.seconds as i128) * 1_000_000_000 + now.nanos as i128;
        b - a > (seconds as i128) * 1_000_000_000
    }
}

/// Whether the calendar that `chrono` covers, from the year -262143 to the year 262142, has the
/// point that lies a number of seconds behind 1970.
pub open spec fn in_calendar(seconds: int) -> bool {
    -8_334_601_228_800 <= seconds <= 8_210_266_876_799
}

/// `chrono::DateTime::from_timestamp` with no nanoseconds: the point in time, for every number of
/// seconds that falls into `chrono`'s calendar, and nothing for any other.
#[verifier::external_body]
pub(crate) fn from_unix(seconds: i64) -> (r: Option<Timestamp>)
    ensures
        r == (if in_calendar(seconds as int) {
            Some((Timestamp { seconds, nanos: 0 }))
        } else {
            None
        }),
{
    let found = chrono::DateTime::from_timestamp(seconds, 0)?;
    Some(Timestamp { seconds: found.timestamp(), nanos: found.timestamp_subsec_nanos() })
}

/// The text of a point in time as RFC 3339 has it, from its seconds and the nanoseconds behind them:
/// what `chrono::DateTime::to_rfc3339` returns in UTC, and nothing for a point that
/// `chrono::DateTime::from_timestamp` does not know.
pub uninterp spec fn rfc3339(seconds: i64, nanos: u32) -> Option<Seq<char>>;

/// `chrono::DateTime::to_rfc3339` on the point in UTC that `chrono::DateTime::from_timestamp` makes
/// of the numbers, as [`rfc3339`] names it. Where the nanoseconds are less than a second, there is a
/// text just for the points inside the calendar. What the text is stays unsaid.
#[verifier::external_body]
fn to_rfc3339(seconds: i64, nanos: u32) -> (r: Option<String>)
    ensures
        crate::text::text_view(r) == rfc3339(seconds, nanos),
        nanos < 1_000_000_000 ==> (r is Some <==> in_calendar(seconds as int)),
{
    let found = chrono::DateTime::from_timestamp(seconds, nanos)?;
    Some(found.to_rfc3339())
}

impl Timestamp {
    /// The text of this point in time, where the calendar has it.
    pub fn text(self) -> (r: Option<String>)
        ensures
            crate::text::text_view(r) == rfc3339(self.seconds, self.nanos),
            self.valid() ==> (r is Some <==> in_calendar(self.seconds as int)),
    {
        to_rfc3339(self.seconds, self.nanos)
    }
}

} // verus!
