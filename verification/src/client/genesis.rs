//! Waiting for the chain to begin.
use vstd::prelude::*;

verus! {

/// A point in time: seconds since the Unix epoch, and nanoseconds on top of them.
#[derive(Clone, Copy, Debug, PartialEq, Eq)]
pub struct Timestamp {
    pub secs: i64,
    pub nanos: u32,
}

impl Timestamp {
    /// The calendar can hold the time. A time within a leap second counts on from the nanoseconds
    /// of the second before; the last second that the calendar holds is not followed by one.
    pub open spec fn wf(self) -> bool {
        &&& -8_334_601_228_800 <= self.secs <= 8_210_266_876_799
        &&& self.nanos < 2_000_000_000
        &&& self.secs == 8_210_266_876_799 ==> self.nanos < 1_000_000_000
    }

    /// Nanoseconds since the Unix epoch, as if there were no leap second before.
    pub open spec fn total_nanos(self) -> int {
        self.secs * 1_000_000_000 + self.nanos
    }

    /// The second of the day.
    pub open spec fn second_of_day(self) -> int {
        self.secs as int % 86_400
    }

    /// The time is within a leap second.
    pub open spec fn in_leap_second(self) -> bool {
        self.nanos >= 1_000_000_000
    }
}

/// The leap second that lies between two times, by their places in the day: one that the earlier
/// place is in counts for the later one, and the other way round.
pub open spec fn leap_between(from: Timestamp, to: Timestamp) -> int {
    if to.second_of_day() > from.second_of_day() && from.in_leap_second() {
        1
    } else if to.second_of_day() < from.second_of_day() && to.in_leap_second() {
        -1
    } else {
        0
    }
}

/// The nanoseconds from one time to another, negative where the other comes first.
pub open spec fn nanos_between(from: Timestamp, to: Timestamp) -> int {
    to.total_nanos() - from.total_nanos() + leap_between(from, to) * 1_000_000_000
}

/// The whole seconds of a span of nanoseconds. What is left over is dropped, for a negative span
/// too.
pub open spec fn whole_seconds(nanos: int) -> int {
    if nanos >= 0 {
        nanos / 1_000_000_000
    } else {
        -((-nanos) / 1_000_000_000)
    }
}

/// Calls `chrono::DateTime::signed_duration_since` and then `chrono::TimeDelta::num_seconds` on
/// its result: the whole seconds from one time to another, negative where the other comes first.
/// The times are made with `chrono::DateTime::from_timestamp` and
/// `chrono::Timelike::with_nanosecond`, which take all times that the calendar holds.
#[verifier::external_body]
fn seconds_between(from: &Timestamp, to: &Timestamp) -> (r: i64)
    requires
        from.wf(),
        to.wf(),
    ensures
        r == whole_seconds(nanos_between(*from, *to)),
{
    let start = chrono::DateTime::<chrono::Utc>::from_timestamp(from.secs, 0).unwrap();
    let start = chrono::Timelike::with_nanosecond(&start, from.nanos).unwrap();
    let end = chrono::DateTime::<chrono::Utc>::from_timestamp(to.secs, 0).unwrap();
    let end = chrono::Timelike::with_nanosecond(&end, to.nanos).unwrap();
    end.signed_duration_since(start).num_seconds()
}

/// For how many seconds to wait until the chain begins, if it has not begun.
pub fn wait_until_genesis(genesis_time: &Timestamp, now: &Timestamp) -> (r: Option<u64>)
    requires
        genesis_time.wf(),
        now.wf(),
    ensures
        ({
            let seconds = whole_seconds(nanos_between(*now, *genesis_time));
            match r {
                Some(wait) => seconds > 0 && wait == seconds,
                None => seconds <= 0,
            }
        }),
{
    let seconds = seconds_between(now, genesis_time);
    if seconds > 0 {
        Some(seconds as u64)
    } else {
        None
    }
}

/// The way from one time to another is as long as the way back, in the other direction.
pub proof fn law_way_back_is_as_long(from: Timestamp, to: Timestamp)
    ensures
        nanos_between(from, to) == -nanos_between(to, from),
        nanos_between(from, from) == 0,
        whole_seconds(nanos_between(from, to)) == -whole_seconds(nanos_between(to, from)),
{
}

/// A span of so many whole seconds is at least that long, and shorter than one second more.
pub proof fn law_whole_seconds_leave_less_than_one_over(nanos: int)
    ensures
        nanos >= 0 ==> whole_seconds(nanos) * 1_000_000_000 <= nanos < (whole_seconds(nanos) + 1)
            * 1_000_000_000,
        nanos < 0 ==> (whole_seconds(nanos) - 1) * 1_000_000_000 < nanos <= whole_seconds(nanos)
            * 1_000_000_000,
        whole_seconds(nanos) > 0 <==> nanos >= 1_000_000_000,
{
}

/// Where neither time is within a leap second, the time between them is the plain difference.
pub proof fn law_plain_times_differ_plainly(from: Timestamp, to: Timestamp)
    requires
        from.nanos < 1_000_000_000,
        to.nanos < 1_000_000_000,
    ensures
        nanos_between(from, to) == (to.secs - from.secs) * 1_000_000_000 + to.nanos - from.nanos,
{
}

} // verus!
