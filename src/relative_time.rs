//! Relative-time labels ("Just now", "5 min ago", "02:05 PM", "Yesterday",
//! a weekday name, or an ISO date) for a point in time seen from "now".
use vstd::prelude::*;
use vstd::string::*;
use crate::digits::{decimal, two_digits, push_decimal, push_two_digits};

verus! {

/// Largest distance from the Unix epoch, in seconds, of a representable
/// instant: the local calendar date of every such instant stays within the
/// range of dates that the calendar library can render.
pub const MAX_UNIX_SECS: i64 = 8_200_000_000_000;

pub const NANOS_PER_SEC: i128 = 1_000_000_000;

pub const SECS_PER_DAY: i64 = 86_400;

pub open spec fn nanos_per_minute() -> int {
    60 * NANOS_PER_SEC
}

pub open spec fn nanos_per_hour() -> int {
    3600 * NANOS_PER_SEC
}

pub open spec fn nanos_per_week() -> int {
    7 * 86_400 * NANOS_PER_SEC
}

/// An instant in UTC: whole seconds since the Unix epoch and the nanoseconds
/// within that second.
#[derive(Clone, Copy, PartialEq, Eq, Debug)]
pub struct Timestamp {
    pub secs: i64,
    pub nanos: u32,
}

impl Timestamp {
    /// The nanoseconds lie within the second and the instant is representable.
    pub open spec fn wf(&self) -> bool {
        &&& self.nanos < NANOS_PER_SEC
        &&& -MAX_UNIX_SECS <= self.secs <= MAX_UNIX_SECS
    }

    /// The instant as nanoseconds since the Unix epoch.
    pub open spec fn instant(&self) -> int {
        self.secs * NANOS_PER_SEC + self.nanos
    }

    /// The instant `secs` seconds and `nanos` nanoseconds after the epoch, if
    /// it is representable.
    pub fn new(secs: i64, nanos: u32) -> (r: Option<Timestamp>)
        ensures
            r is Some <==> (nanos < NANOS_PER_SEC && -MAX_UNIX_SECS <= secs <= MAX_UNIX_SECS),
            r matches Some(t) ==> t.secs == secs && t.nanos == nanos && t.wf(),
    {
        if nanos < 1_000_000_000 && -MAX_UNIX_SECS <= secs && secs <= MAX_UNIX_SECS {
            Some(Timestamp { secs, nanos })
        } else {
            None
        }
    }
}

/// Nanoseconds from `ts` to `now` (negative when `ts` is later).
pub open spec fn elapsed(ts: Timestamp, now: Timestamp) -> int {
    now.instant() - ts.instant()
}

/// The local calendar day of `t`, counted from 1970-01-01, in a zone that is
/// `offset` seconds ahead of UTC.
pub open spec fn local_day(t: Timestamp, offset: int) -> int {
    (t.secs + offset) / (SECS_PER_DAY as int)
}

/// The local second within its day of `t`, in a zone `offset` seconds ahead of UTC.
pub open spec fn local_second_of_day(t: Timestamp, offset: int) -> int {
    (t.secs + offset) % (SECS_PER_DAY as int)
}

/// English name of the weekday of `day` (day 0, 1970-01-01, is a Thursday).
pub open spec fn weekday_name(day: int) -> Seq<char> {
    let w = (day + 3) % 7;
    if w == 0 {
        "Monday"@
    } else if w == 1 {
        "Tuesday"@
    } else if w == 2 {
        "Wednesday"@
    } else if w == 3 {
        "Thursday"@
    } else if w == 4 {
        "Friday"@
    } else if w == 5 {
        "Saturday"@
    } else {
        "Sunday"@
    }
}

/// The time of day `sod` (seconds since midnight) on a 12-hour clock:
/// zero-padded hour and minute and an AM/PM suffix, as in "02:05 PM".
pub open spec fn clock_text(sod: int) -> Seq<char> {
    let hour = sod / 3600;
    let minute = (sod % 3600) / 60;
    let hour12 = if hour % 12 == 0 { 12 } else { hour % 12 };
    two_digits(hour12) + ":"@ + two_digits(minute) + if hour < 12 { " AM"@ } else { " PM"@ }
}

/// "<n> min ago".
pub open spec fn minutes_ago_text(n: nat) -> Seq<char> {
    decimal(n) + " min ago"@
}

/// The local calendar date of `day` (counted from 1970-01-01) as "YYYY-MM-DD",
/// as the calendar library renders it.
pub uninterp spec fn iso_date_of(day: int) -> Seq<char>;


/// Relies on chrono's `NaiveDate::from_epoch_days` and `format("%Y-%m-%d")`:
/// renders the calendar date of `day`. The date exists for every day admitted
/// here, so the fallback of `unwrap_or_default` is never taken.
#[verifier::external_body]
fn iso_date(day: i32) -> (r: String)
    requires
        -95_000_000 <= day <= 95_000_000,
    ensures
        r@ == iso_date_of(day as int),
{
    chrono::NaiveDate::from_epoch_days(day).unwrap_or_default().format("%Y-%m-%d").to_string()
}

/// Relies on chrono's `Local::offset_from_utc_datetime` and
/// `FixedOffset::local_minus_utc`: the local zone's offset from UTC at the
/// instant `t`, which chrono keeps strictly within one day.
#[verifier::external_body]
fn local_offset_secs(t: Timestamp) -> (r: i32)
    requires
        t.wf(),
    ensures
        -86_400 < r < 86_400,
{
    let utc = chrono::DateTime::from_timestamp(t.secs, t.nanos).unwrap_or_default();
    chrono::TimeZone::offset_from_utc_datetime(&chrono::Local, &utc.naive_utc()).local_minus_utc()
}

/// Relies on chrono's `Utc::now`: the wall-clock time as seconds since the
/// epoch and nanoseconds within the second. Nothing is known of the values.
#[verifier::external_body]
fn clock_now() -> (r: (i64, u32)) {
    let now = chrono::Utc::now();
    (now.timestamp(), now.timestamp_subsec_nanos())
}

/// The label of `ts` seen from `now`, where `ts_offset` and `now_offset` are
/// the local zone's offsets from UTC (in seconds) at the two instants.
/// A `ts` later than `now` counts as "Just now".
pub open spec fn relative_label(ts: Timestamp, now: Timestamp, ts_offset: int, now_offset: int) -> Seq<char> {
    let e = elapsed(ts, now);
    let day = local_day(ts, ts_offset);
    let today = local_day(now, now_offset);
    if e < nanos_per_minute() {
        "Just now"@
    } else if e < nanos_per_hour() {
        minutes_ago_text((e / nanos_per_minute()) as nat)
    } else if day == today {
        clock_text(local_second_of_day(ts, ts_offset))
    } else if day == today - 1 {
        "Yesterday"@
    } else if e < nanos_per_week() {
        weekday_name(day)
    } else {
        iso_date_of(day)
    }
}

/// Local day and second of day of `t` in a zone `offset` seconds ahead of UTC.
fn local_day_and_second(t: Timestamp, offset: i32) -> (r: (i64, i64))
    requires
        t.wf(),
        -86_400 < offset < 86_400,
    ensures
        r.0 == local_day(t, offset as int),
        r.1 == local_second_of_day(t, offset as int),
        -95_000_000 <= r.0 <= 95_000_000,
        0 <= r.1 < 86_400,
{
    let local: i64 = t.secs + offset as i64;
    let q: i64 = local / SECS_PER_DAY;
    let m: i64 = local % SECS_PER_DAY;
    if m < 0 {
        (q - 1, m + SECS_PER_DAY)
    } else {
        (q, m)
    }
}

/// The English name of the weekday of `day`.
pub fn weekday_text(day: i64) -> (r: String)
    ensures
        r@ == weekday_name(day as int),
{
    let m: i64 = day % 7;
    let e: i64 = if m < 0 { m + 7 } else { m };
    assert(e == day % 7);
    let w: i64 = (e + 3) % 7;
    assert(w == (day + 3) % 7) by (nonlinear_arith)
        requires
            e == day % 7,
            w == (e + 3) % 7,
    ;
    if w == 0 {
        String::from_str("Monday")
    } else if w == 1 {
        String::from_str("Tuesday")
    } else if w == 2 {
        String::from_str("Wednesday")
    } else if w == 3 {
        String::from_str("Thursday")
    } else if w == 4 {
        String::from_str("Friday")
    } else if w == 5 {
        String::from_str("Saturday")
    } else {
        String::from_str("Sunday")
    }
}

/// The time of day `sod` (seconds since midnight) as "HH:MM AM" or "HH:MM PM".
pub fn clock_time_text(sod: u32) -> (r: String)
    requires
        sod < 86_400,
    ensures
        r@ == clock_text(sod as int),
{
    let hour: u32 = sod / 3600;
    let minute: u32 = (sod % 3600) / 60;
    let hour12: u32 = if hour % 12 == 0 { 12 } else { hour % 12 };
    let mut s = String::new();
    push_two_digits(&mut s, hour12 as u64);
    s.append(":");
    push_two_digits(&mut s, minute as u64);
    if hour < 12 {
        s.append(" AM");
    } else {
        s.append(" PM");
    }
    assert(s@ =~= clock_text(sod as int));
    s
}

/// "<n> min ago".
pub fn minutes_ago(n: u64) -> (r: String)
    ensures
        r@ == minutes_ago_text(n as nat),
{
    let mut s = String::new();
    push_decimal(&mut s, n);
    s.append(" min ago");
    assert(s@ =~= minutes_ago_text(n as nat));
    s
}

/// Labels `timestamp` relative to `now`. `timestamp_offset` and `now_offset`
/// are the local zone's offsets from UTC, in seconds, at the two instants.
/// The first rule that matches decides:
/// under a minute "Just now" (also for a `timestamp` after `now`); under an
/// hour "<N> min ago" with N whole minutes; on the same local date the
/// 12-hour clock time; on the local date before "Yesterday"; under seven
/// days (elapsed, not calendar days) the weekday name; else "YYYY-MM-DD".
pub fn humanize_time_at(timestamp: Timestamp, now: Timestamp, timestamp_offset: i32, now_offset: i32) -> (r: String)
    requires
        timestamp.wf(),
        now.wf(),
        -86_400 < timestamp_offset < 86_400,
        -86_400 < now_offset < 86_400,
    ensures
        r@ == relative_label(timestamp, now, timestamp_offset as int, now_offset as int),
        elapsed(timestamp, now) < nanos_per_minute() ==> r@ == "Just now"@,
        nanos_per_minute() <= elapsed(timestamp, now) < nanos_per_hour()
            ==> r@ == minutes_ago_text((elapsed(timestamp, now) / nanos_per_minute()) as nat),
        ({
            let e = elapsed(timestamp, now);
            let day = local_day(timestamp, timestamp_offset as int);
            let today = local_day(now, now_offset as int);
            &&& e >= nanos_per_hour() && day == today
                ==> r@ == clock_text(local_second_of_day(timestamp, timestamp_offset as int))
            &&& e >= nanos_per_hour() && day + 1 == today ==> r@ == "Yesterday"@
            &&& e >= nanos_per_hour() && day != today && day + 1 != today && e < nanos_per_week()
                ==> r@ == weekday_name(day)
            &&& e >= nanos_per_hour() && day != today && day + 1 != today && e >= nanos_per_week()
                ==> r@ == iso_date_of(day)
        }),
{
    let e: i128 = (now.secs as i128 - timestamp.secs as i128) * NANOS_PER_SEC
        + (now.nanos as i128 - timestamp.nanos as i128);
    assert(e == elapsed(timestamp, now));
    if e < 60 * NANOS_PER_SEC {
        return String::from_str("Just now");
    }
    if e < 3600 * NANOS_PER_SEC {
        let n: i128 = e / (60 * NANOS_PER_SEC);
        return minutes_ago(n as u64);
    }
    let (day, sod) = local_day_and_second(timestamp, timestamp_offset);
    let (today, _) = local_day_and_second(now, now_offset);
    if day == today {
        clock_time_text(sod as u32)
    } else if day == today - 1 {
        String::from_str("Yesterday")
    } else if e < 7 * 86_400 * NANOS_PER_SEC {
        weekday_text(day)
    } else {
        iso_date(day as i32)
    }
}

/// Labels `timestamp` relative to the current wall-clock time, read once, in
/// the machine's local time zone (see `humanize_time_at` for the rules).
pub fn humanize_time(timestamp: Timestamp) -> (r: String)
    requires
        timestamp.wf(),
    ensures
        exists|now: Timestamp, timestamp_offset: int, now_offset: int|
            now.wf() && -86_400 < timestamp_offset < 86_400 && -86_400 < now_offset < 86_400
                && r@ == #[trigger] relative_label(timestamp, now, timestamp_offset, now_offset),
{
    let (secs, nanos) = clock_now();
    let now = clamp_instant(secs, nanos);
    let timestamp_offset = local_offset_secs(timestamp);
    let now_offset = local_offset_secs(now);
    let r = humanize_time_at(timestamp, now, timestamp_offset, now_offset);
    assert(r@ == relative_label(timestamp, now, timestamp_offset as int, now_offset as int));
    r
}

/// The representable instant nearest to `secs` seconds and `nanos`
/// nanoseconds after the epoch: a leap second (nanoseconds of a second or
/// more) counts as the last nanosecond of its second.
pub fn clamp_instant(secs: i64, nanos: u32) -> (r: Timestamp)
    ensures
        r.wf(),
        r.secs == (if secs < -MAX_UNIX_SECS { -MAX_UNIX_SECS as int } else if secs > MAX_UNIX_SECS { MAX_UNIX_SECS as int } else { secs as int }),
        r.nanos == if nanos < NANOS_PER_SEC { nanos as int } else { NANOS_PER_SEC - 1 },
{
    let s: i64 = if secs < -MAX_UNIX_SECS {
        -MAX_UNIX_SECS
    } else if secs > MAX_UNIX_SECS {
        MAX_UNIX_SECS
    } else {
        secs
    };
    let n: u32 = if nanos < 1_000_000_000 { nanos } else { 999_999_999 };
    Timestamp { secs: s, nanos: n }
}

} // verus!
