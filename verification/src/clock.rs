//! The time of day: what the clock says, and how a time is written.

use crate::sync::step::TimeLayout;
use chrono::TimeZone;
use vstd::pervasive::unreached;
use vstd::prelude::*;

verus! {

/// A moment of the wall clock: seconds since 1970, and nanoseconds beyond them.
#[derive(Debug, Clone, Copy, PartialEq, Eq, Structural)]
pub struct WallTime {
    pub unix_secs: i64,
    pub nanos: u32,
}

/// More seconds than 262,144 years have.
pub const CLOCK_LIMIT: i64 = 9000000000000;

impl WallTime {
    /// Whether the clock can say so.
    pub open spec fn plausible(self) -> bool {
        -CLOCK_LIMIT <= self.unix_secs <= CLOCK_LIMIT
    }
}

/// The first second of the calendar, where the year -262143 begins.
pub const FIRST_SECOND: i64 = -8334601228800;

/// The last second of the calendar, where the year 262142 ends.
pub const LAST_SECOND: i64 = 8210266876799;

/// Whether the calendar has the given second.
pub open spec fn in_calendar(unix_secs: i64) -> bool {
    FIRST_SECOND <= unix_secs <= LAST_SECOND
}

/// A second of the wall clock, and how far local time is ahead of universal time then.
#[derive(Debug, Clone, Copy, PartialEq, Eq, Structural)]
pub struct LocalTime {
    pub unix_secs: i64,
    pub utc_offset_secs: i32,
}

impl LocalTime {
    /// Whether the time and the offset are such as can be written.
    pub open spec fn wf(self) -> bool {
        &&& in_calendar(self.unix_secs)
        &&& -86400 < self.utc_offset_secs < 86400
    }

    /// A local time, where it can be written.
    pub fn new(unix_secs: i64, utc_offset_secs: i32) -> (t: Option<LocalTime>)
        ensures
            match t {
                Some(t) => t.wf() && t == (LocalTime { unix_secs, utc_offset_secs }),
                None => !(LocalTime { unix_secs, utc_offset_secs }).wf(),
            },
    {
        if FIRST_SECOND <= unix_secs && unix_secs <= LAST_SECOND && -86400 < utc_offset_secs
            && utc_offset_secs < 86400 {
            Some(LocalTime { unix_secs, utc_offset_secs })
        } else {
            None
        }
    }

    /// The time as `2024-03-15 14:30:45 +01:00`.
    pub fn literal(&self) -> (text: String)
        requires
            self.wf(),
        ensures
            text@ == written_time(*self),
    {
        self.written(TimeLayout::Status)
    }

    /// The time in the given layout.
    pub fn written(&self, layout: TimeLayout) -> (text: String)
        requires
            self.wf(),
        ensures
            text@ == time_in(*self, layout),
    {
        let format: &str = match layout {
            TimeLayout::Message => "%Y-%m-%d %I:%M:%S %p %Z",
            TimeLayout::Branch => "%Y-%m-%d-%H%M%S",
            TimeLayout::Status => "%Y-%m-%d %H:%M:%S %Z",
        };
        assert(format@ == notation(layout));
        write_time(self.unix_secs, self.utc_offset_secs, format)
    }
}

/// How `chrono` writes the given second at the given offset in the given notation.
pub uninterp spec fn formatted_time(
    unix_secs: i64,
    utc_offset_secs: i32,
    format: Seq<char>,
) -> Seq<char>;

/// The notations in which times are written.
pub open spec fn notation(layout: TimeLayout) -> Seq<char> {
    match layout {
        TimeLayout::Message => "%Y-%m-%d %I:%M:%S %p %Z"@,
        TimeLayout::Branch => "%Y-%m-%d-%H%M%S"@,
        TimeLayout::Status => "%Y-%m-%d %H:%M:%S %Z"@,
    }
}

/// How a time is written in the given layout.
pub open spec fn time_in(t: LocalTime, layout: TimeLayout) -> Seq<char> {
    formatted_time(t.unix_secs, t.utc_offset_secs, notation(layout))
}

/// How a time is written for the user.
pub open spec fn written_time(t: LocalTime) -> Seq<char> {
    time_in(t, TimeLayout::Status)
}

/// `DateTime::format` of `chrono`, for a time given by its second and its offset. What it writes
/// depends on the two and on the notation alone. The time is kept to the range in which `chrono`
/// has such times, and the notation to one that it knows: it panics on others.
#[verifier::external_body]
fn write_time(unix_secs: i64, utc_offset_secs: i32, format: &str) -> (text: String)
    requires
        (LocalTime { unix_secs, utc_offset_secs }).wf(),
        exists|layout: TimeLayout| format@ == #[trigger] notation(layout),
    ensures
        text@ == formatted_time(unix_secs, utc_offset_secs, format@),
{
    let offset = chrono::FixedOffset::east_opt(utc_offset_secs).unwrap();
    let time = chrono::DateTime::from_timestamp(unix_secs, 0).unwrap();
    time.with_timezone(&offset).format(format).to_string()
}

/// `chrono::Utc::now`: the second of the wall clock, and the nanoseconds beyond it. They are
/// whatever the clock says, but the second is one of the calendar that `chrono` has, and the
/// nanoseconds are less than a second.
#[verifier::external_body]
fn utc_now() -> (now: (i64, u32))
    ensures
        in_calendar(now.0),
        now.1 < 1000000000,
{
    let now = chrono::Utc::now();
    (now.timestamp(), now.timestamp_subsec_nanos())
}

/// What the wall clock says.
pub fn wall_time() -> (now: WallTime)
    ensures
        now.plausible(),
        in_calendar(now.unix_secs),
        now.nanos < 1000000000,
{
    let (unix_secs, nanos): (i64, u32) = utc_now();
    WallTime { unix_secs, nanos }
}

/// `timestamp_opt` of `chrono::Local`: how far local time is ahead of universal time at the given
/// second. There is an answer for the seconds of the calendar that `chrono` has, and for no
/// others. What it is, is up to the machine, so nothing is claimed of it but that it is less than
/// a day.
#[verifier::external_body]
fn local_offset(unix_secs: i64) -> (offset: Option<i32>)
    ensures
        offset is Some <==> in_calendar(unix_secs),
        offset matches Some(offset) ==> -86400 < offset < 86400,
{
    match chrono::Local.timestamp_opt(unix_secs, 0).single() {
        Some(time) => Some(time.offset().local_minus_utc()),
        None => None,
    }
}

/// The given second as a local time, where the calendar has it.
pub fn local_time_of(unix_secs: i64) -> (t: Option<LocalTime>)
    ensures
        t is Some <==> in_calendar(unix_secs),
        t matches Some(t) ==> t.wf() && t.unix_secs == unix_secs,
{
    match local_offset(unix_secs) {
        Some(offset) => LocalTime::new(unix_secs, offset),
        None => None,
    }
}

/// What the wall clock says, in local time.
pub fn local_now() -> (t: LocalTime)
    ensures
        t.wf(),
{
    match local_time_of(wall_time().unix_secs) {
        Some(t) => t,
        None => unreached(),
    }
}

/// A time in a commit message has twelve hours and the zone; one in the name of a branch has
/// hyphens and no colons; and one that is shown to the user has twenty-four hours and the zone.
pub proof fn times_are_written_for_their_use(t: LocalTime)
    ensures
        time_in(t, TimeLayout::Message) == formatted_time(
            t.unix_secs,
            t.utc_offset_secs,
            "%Y-%m-%d %I:%M:%S %p %Z"@,
        ),
        time_in(t, TimeLayout::Branch) == formatted_time(
            t.unix_secs,
            t.utc_offset_secs,
            "%Y-%m-%d-%H%M%S"@,
        ),
        written_time(t) == formatted_time(
            t.unix_secs,
            t.utc_offset_secs,
            "%Y-%m-%d %H:%M:%S %Z"@,
        ),
{
}

} // verus!
