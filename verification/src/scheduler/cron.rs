//! Cron schedules, as `croner` reads them.

use crate::text;
use crate::time::Timestamp;
use vstd::prelude::*;

verus! {

/// What is wrong with a text as a cron schedule, if anything is.
pub uninterp spec fn cron_error(schedule: Seq<char>) -> Option<Seq<char>>;

/// The first run of a schedule behind a point in time, given and named by its seconds and
/// nanoseconds; nothing for a text that is no schedule, or where the search finds none.
pub uninterp spec fn next_run(schedule: Seq<char>, seconds: i64, nanos: u32) -> Option<(i64, u32)>;

/// The points in time from which the search stays inside the calendar of `chrono`: a second later,
/// where it begins, it is neither the first day, before which it looks at a neighbour, nor the last
/// month, whose end it looks for.
pub open spec fn inside_calendar(seconds: int) -> bool {
    -8_334_601_142_401 <= seconds < 8_210_264_198_399
}

/// `croner::Cron::new` and `parse`: the message of the error, as [`cron_error`] names it, for a
/// text that is no schedule of five fields; nothing for one that is.
#[verifier::external_body]
pub(crate) fn parse_error(schedule: &str) -> (r: Option<String>)
    ensures
        text::text_view(r) == cron_error(schedule@),
{
    match croner::Cron::new(schedule).parse() {
        Ok(_) => None,
        Err(e) => Some(e.to_string()),
    }
}

/// A point in time as its seconds and nanoseconds.
pub open spec fn parts_view(point: Option<Timestamp>) -> Option<(i64, u32)> {
    match point {
        Some(t) => Some((t.seconds, t.nanos)),
        None => None,
    }
}

/// `croner::Cron::find_next_occurrence` behind a point in time, which itself does not count: the
/// next run, as [`next_run`] names it. A run that is found lies at least a second later, and there
/// is none for a text that [`parse_error`] objects to. On the first day of the calendar and in its
/// last month the search could step out of it, so they are left out.
#[verifier::external_body]
pub(crate) fn find_next(schedule: &str, after: Timestamp) -> (r: Option<Timestamp>)
    requires
        after.valid(),
        inside_calendar(after.seconds as int),
    ensures
        parts_view(r) == next_run(schedule@, after.seconds, after.nanos),
        r matches Some(next) ==> next.valid() && next.seconds > after.seconds,
        r is Some ==> cron_error(schedule@) is None,
{
    let cron = croner::Cron::new(schedule).parse().ok()?;
    let start = chrono::DateTime::from_timestamp(after.seconds, after.nanos)?;
    let next = cron.find_next_occurrence(&start, false).ok()?;
    Some(Timestamp { seconds: next.timestamp(), nanos: next.timestamp_subsec_nanos() })
}

} // verus!
