//! Points in time as plain numbers, and their text forms.

use vstd::prelude::*;

verus! {

/// Nanoseconds in one second.
pub const NANOS_PER_SEC: u32 = 1_000_000_000;

/// The earliest second that the calendar can express: the start of the year
/// -262143.
pub const MIN_CALENDAR_SECS: i64 = -8_334_601_228_800;

/// The last second that the calendar can express: the end of the year 262142.
pub const MAX_CALENDAR_SECS: i64 = 8_210_266_876_799;

/// The pattern of the timestamps sent to the recommendation service.
pub const FEED_TIMESTAMP_PATTERN: &'static str = "%Y-%m-%d %H:%M:%S%.6f+00:00";

/// A point in time: whole seconds since 1970-01-01T00:00:00Z, negative before
/// it, and the nanoseconds into that second.
#[derive(Clone, Copy, Debug, PartialEq, Eq, Structural)]
pub struct Timestamp {
    pub secs: i64,
    pub nanos: u32,
}

impl Timestamp {
    /// The nanoseconds stay below one second.
    pub open spec fn wf(self) -> bool {
        self.nanos < NANOS_PER_SEC
    }

    /// The point lies within the years that the calendar can express.
    pub open spec fn in_calendar(self) -> bool {
        self.wf() && MIN_CALENDAR_SECS <= self.secs <= MAX_CALENDAR_SECS
    }
}

/// A point in time as the watch-history ledger records it.
#[derive(Clone, Copy, Debug, PartialEq, Eq, Structural)]
pub struct SystemTime {
    pub nanos_since_epoch: u32,
    pub secs_since_epoch: u64,
}

/// The second in which a ledger time falls, its surplus nanoseconds carried.
pub open spec fn carried_secs(nanos_since_epoch: u32, secs_since_epoch: u64) -> int {
    secs_since_epoch + nanos_since_epoch / NANOS_PER_SEC
}

/// The RFC 3339 text of the point `nanos` nanoseconds into the second `secs`,
/// in UTC, as chrono writes it.
pub uninterp spec fn rfc3339_text(secs: i64, nanos: u32) -> Seq<char>;

/// The text of the point `nanos` nanoseconds into the second `secs`, in UTC,
/// written after `pattern`, as chrono writes it; `None` where chrono cannot
/// write it.
pub uninterp spec fn formatted_text(secs: i64, nanos: u32, pattern: Seq<char>) -> Option<Seq<char>>;

/// Calls chrono's `DateTime::from_timestamp` and, on the date it gives,
/// `DateTime::to_rfc3339`.
///
/// Trusted: the text is the one named by [`rfc3339_text`]; with less than a
/// second of nanoseconds there is a date exactly for the seconds from
/// [`MIN_CALENDAR_SECS`] to [`MAX_CALENDAR_SECS`].
#[verifier::external_body]
fn chrono_rfc3339(secs: i64, nanos: u32) -> (res: Option<String>)
    ensures
        res matches Some(text) ==> text@ == rfc3339_text(secs, nanos),
        nanos < NANOS_PER_SEC ==> (res is Some <==> MIN_CALENDAR_SECS <= secs
            <= MAX_CALENDAR_SECS),
{
    chrono::DateTime::from_timestamp(secs, nanos).map(|moment| moment.to_rfc3339())
}

/// Calls chrono's `DateTime::from_timestamp` and, on the date it gives,
/// `DateTime::format` with `pattern`, written out by
/// `DelayedFormat::write_to`.
///
/// Trusted: the result is the one named by [`formatted_text`]; there is no
/// text for a second outside [`MIN_CALENDAR_SECS`] to [`MAX_CALENDAR_SECS`];
/// with less than a second of nanoseconds and the pattern
/// [`FEED_TIMESTAMP_PATTERN`], which holds valid specifiers only, there is
/// one for every second within.
#[verifier::external_body]
fn chrono_format(secs: i64, nanos: u32, pattern: &str) -> (res: Option<String>)
    ensures
        res.deep_view() == formatted_text(secs, nanos, pattern@),
        !(MIN_CALENDAR_SECS <= secs <= MAX_CALENDAR_SECS) ==> res is None,
        nanos < NANOS_PER_SEC && pattern@ == FEED_TIMESTAMP_PATTERN@ && MIN_CALENDAR_SECS <= secs
            <= MAX_CALENDAR_SECS ==> res is Some,
{
    let moment = chrono::DateTime::from_timestamp(secs, nanos)?;
    let mut text = String::new();
    moment.format(pattern).write_to(&mut text).ok()?;
    Some(text)
}

/// The point in time that a ledger record denotes.
///
/// Nanoseconds of a second or more carry into the seconds.
pub fn to_system_time(nanos_since_epoch: u32, secs_since_epoch: u64) -> (res: Timestamp)
    requires
        carried_secs(nanos_since_epoch, secs_since_epoch) <= i64::MAX,
    ensures
        res.secs == carried_secs(nanos_since_epoch, secs_since_epoch),
        res.nanos == nanos_since_epoch % NANOS_PER_SEC,
        res.wf(),
{
    let carry: u64 = (nanos_since_epoch / NANOS_PER_SEC) as u64;
    let secs: u64 = secs_since_epoch + carry;
    Timestamp { secs: secs as i64, nanos: nanos_since_epoch % NANOS_PER_SEC }
}

/// The RFC 3339 text of a point in time, in UTC.
pub fn to_rfc3339(dt: Timestamp) -> (res: String)
    requires
        dt.in_calendar(),
    ensures
        res@ == rfc3339_text(dt.secs, dt.nanos),
{
    match chrono_rfc3339(dt.secs, dt.nanos) {
        Some(text) => text,
        None => String::new(),
    }
}

/// The RFC 3339 text of a ledger time, in UTC.
pub fn to_rfc3339_did_systemtime(dt: &SystemTime) -> (res: String)
    requires
        carried_secs(dt.nanos_since_epoch, dt.secs_since_epoch) <= MAX_CALENDAR_SECS,
    ensures
        res@ == rfc3339_text(
            carried_secs(dt.nanos_since_epoch, dt.secs_since_epoch) as i64,
            dt.nanos_since_epoch % NANOS_PER_SEC,
        ),
{
    let sys_time = to_system_time(dt.nanos_since_epoch, dt.secs_since_epoch);
    to_rfc3339(sys_time)
}

/// The second of `timestamp` that [`format_timestamp`] writes: the whole
/// second, the epoch for a point before it or beyond the calendar.
pub open spec fn feed_second(timestamp: Timestamp) -> i64 {
    if 0 <= timestamp.secs <= MAX_CALENDAR_SECS {
        timestamp.secs
    } else {
        0
    }
}

/// The text of a watch time as the recommendation service expects it: the
/// whole second after [`FEED_TIMESTAMP_PATTERN`].
pub fn format_timestamp(timestamp: Timestamp) -> (res: String)
    ensures
        Some(res@) == formatted_text(feed_second(timestamp), 0, FEED_TIMESTAMP_PATTERN@),
{
    let unix_timestamp: i64 = if timestamp.secs < 0 {
        0
    } else {
        timestamp.secs
    };
    match chrono_format(unix_timestamp, 0, FEED_TIMESTAMP_PATTERN) {
        Some(text) => text,
        None => match chrono_format(0, 0, FEED_TIMESTAMP_PATTERN) {
            Some(text) => text,
            None => String::new(),
        },
    }
}

} // verus!
