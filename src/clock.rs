//! Time engine: work-hours parsing, zone offsets, clock and date text, and the
//! per-zone display facts for an instant.
//!
//! An instant is a count of whole seconds since 1970-01-01T00:00:00Z (`i64`).
//! Offsets and differences are counted in seconds.

use vstd::arithmetic::div_mod::lemma_add_mod_noop_right;
use vstd::prelude::*;
use vstd::string::*;

use crate::config::{TimezoneConfig, WorkHours};
use crate::text::{clock_text, date_text, format_clock, format_date, string_of};

use chrono::Datelike;
use chrono::Offset;
use chrono::TimeZone;

verus! {

/// Seconds in a day of the civil clock (leap seconds are not counted).
pub const SECONDS_PER_DAY: i64 = 86400;

// ---------------------------------------------------------------------------
// Names for what the zone database and the calendar compute
// ---------------------------------------------------------------------------

/// UTC offset, in seconds, that the zone named `id` has at instant `ts`; `None`
/// when the zone database does not know `id` or the instant is outside the
/// calendar's range.
pub uninterp spec fn zone_offset(id: Seq<char>, ts: i64) -> Option<i32>;

/// Proleptic Gregorian `(year, month, day)` of the day that holds the naive
/// second `local` (seconds since 1970-01-01T00:00:00 on the same clock);
/// `None` outside the calendar's range.
pub uninterp spec fn civil_date(local: i64) -> Option<(i32, u32, u32)>;

/// Relies on chrono-tz's `Tz::from_str` (lookup of the identifier in the
/// bundled zone database), chrono's `DateTime::from_timestamp`, and the
/// zone's `offset_from_utc_datetime` reduced by `Offset::fix` to
/// `FixedOffset::local_minus_utc`, which chrono keeps strictly within a day.
#[verifier::external_body]
fn lookup_zone_offset(id: &str, ts: i64) -> (r: Option<i32>)
    ensures
        r == zone_offset(id@, ts),
        r matches Some(o) ==> -86400 < o < 86400,
{
    let tz = <chrono_tz::Tz as std::str::FromStr>::from_str(id).ok()?;
    let utc = chrono::DateTime::from_timestamp(ts, 0)?;
    Some(tz.offset_from_utc_datetime(&utc.naive_utc()).fix().local_minus_utc())
}

/// Relies on chrono's `DateTime::from_timestamp` and its `Datelike` accessors
/// `year`, `month` (1 to 12) and `day` (1 to 31).
#[verifier::external_body]
fn lookup_civil_date(local: i64) -> (r: Option<(i32, u32, u32)>)
    ensures
        r == civil_date(local),
        r matches Some((y, m, d)) ==> 1 <= m <= 12 && 1 <= d <= 31,
{
    chrono::DateTime::from_timestamp(local, 0).map(|t| (t.year(), t.month(), t.day()))
}

// ---------------------------------------------------------------------------
// Work-hours bounds: "HH:MM"
// ---------------------------------------------------------------------------

/// An ASCII decimal digit.
pub open spec fn is_digit(c: char) -> bool {
    '0' <= c && c <= '9'
}

/// Value of an ASCII decimal digit.
pub open spec fn digit_value(c: char) -> int {
    (c as int) - ('0' as int)
}

/// Seconds after midnight denoted by exactly two digits of hour (00 to 23), a
/// colon, and two digits of minute (00 to 59); `None` for any other text.
pub open spec fn hhmm_seconds(s: Seq<char>) -> Option<u32> {
    if s.len() == 5 && is_digit(s[0]) && is_digit(s[1]) && s[2] == ':' && is_digit(s[3])
        && is_digit(s[4]) {
        let h = digit_value(s[0]) * 10 + digit_value(s[1]);
        let m = digit_value(s[3]) * 10 + digit_value(s[4]);
        if h < 24 && m < 60 {
            Some((h * 3600 + m * 60) as u32)
        } else {
            None
        }
    } else {
        None
    }
}

fn digit_at(s: &str, i: usize) -> (r: Option<u32>)
    requires
        i < s@.len(),
    ensures
        r matches Some(d) ==> is_digit(s@[i as int]) && d == digit_value(s@[i as int]),
        r is None ==> !is_digit(s@[i as int]),
{
    let c = s.get_char(i);
    if '0' <= c && c <= '9' {
        Some(((c as u32) - ('0' as u32)) as u32)
    } else {
        None
    }
}

/// Parses a work-hours bound in the strict `"HH:MM"` form into seconds after midnight.
pub fn parse_hhmm(s: &str) -> (r: Option<u32>)
    ensures
        r == hhmm_seconds(s@),
        r matches Some(t) ==> t < 86400 && t % 60 == 0,
{
    if s.unicode_len() != 5 {
        return None;
    }
    if s.get_char(2) != ':' {
        return None;
    }
    let h1 = match digit_at(s, 0) { Some(d) => d, None => return None };
    let h0 = match digit_at(s, 1) { Some(d) => d, None => return None };
    let m1 = match digit_at(s, 3) { Some(d) => d, None => return None };
    let m0 = match digit_at(s, 4) { Some(d) => d, None => return None };
    let h = h1 * 10 + h0;
    let m = m1 * 10 + m0;
    if h < 24 && m < 60 {
        Some(h * 3600 + m * 60)
    } else {
        None
    }
}

impl WorkHours {
    /// The start bound as seconds after midnight, if it reads `"HH:MM"`.
    pub fn start_time(&self) -> (r: Option<u32>)
        ensures
            r == hhmm_seconds(self.start@),
    {
        parse_hhmm(self.start.as_str())
    }

    /// The end bound as seconds after midnight, if it reads `"HH:MM"`.
    pub fn end_time(&self) -> (r: Option<u32>)
        ensures
            r == hhmm_seconds(self.end@),
    {
        parse_hhmm(self.end.as_str())
    }
}

// ---------------------------------------------------------------------------
// Offsets and work status
// ---------------------------------------------------------------------------

/// Seconds after local midnight of the naive local second `local`.
pub open spec fn time_of_day(local: int) -> int {
    local % 86400
}

/// Whether a zone whose offset at `now` is `offset` is inside the window
/// `[start, end]` (inclusive, no wrap past midnight) at `now`.
pub open spec fn working_at(offset: Option<i32>, start: Option<u32>, end: Option<u32>, now: i64) -> bool {
    match (offset, start, end) {
        (Some(o), Some(s), Some(e)) => s <= time_of_day(now + o) && time_of_day(now + o) <= e,
        _ => false,
    }
}

/// Whether the entry's zone is inside its work hours at `now`.
pub open spec fn entry_working(now: i64, config: TimezoneConfig) -> bool {
    working_at(
        zone_offset(config.timezone@, now),
        hhmm_seconds(config.work_hours.start@),
        hhmm_seconds(config.work_hours.end@),
        now,
    )
}

/// Seconds after local midnight at `now` in a zone of offset `offset`.
pub fn local_time_of_day(now: i64, offset: i32) -> (r: i64)
    requires
        -86400 < offset < 86400,
    ensures
        r == time_of_day(now + offset),
        0 <= r < 86400,
{
    let day_part = match now.checked_rem_euclid(SECONDS_PER_DAY) { Some(v) => v, None => 0 };
    proof {
        lemma_add_mod_noop_right(offset as int, now as int, 86400);
    }
    let shifted = day_part + offset as i64;
    match shifted.checked_rem_euclid(SECONDS_PER_DAY) { Some(v) => v, None => 0 }
}

/// Work status from an already resolved zone offset.
pub fn is_working_at(offset: Option<i32>, now: i64, hours: &WorkHours) -> (r: bool)
    requires
        offset matches Some(o) ==> -86400 < o < 86400,
    ensures
        r == working_at(offset, hhmm_seconds(hours.start@), hhmm_seconds(hours.end@), now),
{
    let o = match offset { Some(o) => o, None => return false };
    let (start, end) = match (hours.start_time(), hours.end_time()) {
        (Some(s), Some(e)) => (s, e),
        _ => return false,
    };
    let t = local_time_of_day(now, o);
    start as i64 <= t && t <= end as i64
}

/// Whether `now` falls inside the entry's work hours in its own zone; false
/// when the zone is unknown or either bound is not `"HH:MM"`.
pub fn is_work_hours(now: i64, config: &TimezoneConfig) -> (r: bool)
    ensures
        r == entry_working(now, *config),
{
    let offset = lookup_zone_offset(config.timezone.as_str(), now);
    is_working_at(offset, now, &config.work_hours)
}

/// The zone's UTC offset in seconds at `now`, or `None` for an unknown zone.
pub fn get_timezone_offset(now: i64, tz_str: &str) -> (r: Option<i32>)
    ensures
        r == zone_offset(tz_str@, now),
        r matches Some(o) ==> -86400 < o < 86400,
{
    lookup_zone_offset(tz_str, now)
}

/// Signed difference, in seconds, between the zone's offset at `now` and a
/// reference offset; `None` for an unknown zone. Divided by 3600 it is the
/// difference in hours.
pub fn calculate_time_difference(now: i64, tz_str: &str, reference_offset_seconds: i32) -> (r: Option<i64>)
    ensures
        match zone_offset(tz_str@, now) {
            Some(o) => r == Some((o - reference_offset_seconds) as i64),
            None => r is None,
        },
{
    match lookup_zone_offset(tz_str, now) {
        Some(o) => Some(o as i64 - reference_offset_seconds as i64),
        None => None,
    }
}

// ---------------------------------------------------------------------------
// Display facts
// ---------------------------------------------------------------------------

/// What is shown for one zone at one instant.
#[derive(Debug, Clone, PartialEq, Eq)]
pub struct TimeDisplayInfo {
    /// Local clock, `"HH:MM"` or `"hh:mm AM"`.
    pub time: String,
    /// Local date, `"YYYY-MM-DD"`.
    pub date: String,
    /// Zone offset minus the reference offset, in seconds (signed).
    pub diff_seconds: i64,
    /// Whether the zone is inside its work hours.
    pub is_working: bool,
}

/// The naive local date at `now` in a zone of offset `offset`, when the
/// local second fits the instant type and the calendar.
pub open spec fn local_date(now: i64, offset: i32) -> Option<(i32, u32, u32)> {
    if i64::MIN <= now + offset && now + offset <= i64::MAX {
        civil_date((now + offset) as i64)
    } else {
        None
    }
}

/// The display facts of `config` at `now` for a zone offset `offset`, or `None`.
pub open spec fn display_facts(
    now: i64,
    config: TimezoneConfig,
    offset: Option<i32>,
    reference_offset_seconds: i32,
    use_12h: bool,
    info: Option<TimeDisplayInfo>,
) -> bool {
    match offset {
        None => info is None,
        Some(o) => match local_date(now, o) {
            None => info is None,
            Some((y, m, d)) => info matches Some(i) && {
                &&& i.time@ == clock_text(time_of_day(now + o), use_12h)
                &&& i.date@ == date_text(y as int, m as int, d as int)
                &&& i.diff_seconds == o - reference_offset_seconds
                &&& i.is_working == working_at(
                    offset,
                    hhmm_seconds(config.work_hours.start@),
                    hhmm_seconds(config.work_hours.end@),
                    now,
                )
            },
        },
    }
}

/// Display facts from an already resolved zone offset and local date.
pub fn display_info_at(
    now: i64,
    config: &TimezoneConfig,
    offset: i32,
    date: (i32, u32, u32),
    reference_offset_seconds: i32,
    use_12h_format: bool,
) -> (r: TimeDisplayInfo)
    requires
        -86400 < offset < 86400,
        1 <= date.1 <= 12,
        1 <= date.2 <= 31,
    ensures
        r.time@ == clock_text(time_of_day(now + offset), use_12h_format),
        r.date@ == date_text(date.0 as int, date.1 as int, date.2 as int),
        r.diff_seconds == offset - reference_offset_seconds,
        r.is_working == working_at(
            Some(offset),
            hhmm_seconds(config.work_hours.start@),
            hhmm_seconds(config.work_hours.end@),
            now,
        ),
{
    let t = local_time_of_day(now, offset);
    let time = string_of(format_clock(t, use_12h_format).as_slice());
    let date = string_of(format_date(date.0, date.1, date.2).as_slice());
    let diff_seconds = offset as i64 - reference_offset_seconds as i64;
    let is_working = is_working_at(Some(offset), now, &config.work_hours);
    TimeDisplayInfo { time, date, diff_seconds, is_working }
}

/// Local clock, local date, difference from the reference offset and work
/// status of the entry at `now`; `None` when its zone is unknown (or the local
/// date lies outside the calendar).
pub fn get_time_display_info(
    now: i64,
    config: &TimezoneConfig,
    reference_offset_seconds: i32,
    use_12h_format: bool,
) -> (r: Option<TimeDisplayInfo>)
    ensures
        display_facts(
            now,
            *config,
            zone_offset(config.timezone@, now),
            reference_offset_seconds,
            use_12h_format,
            r,
        ),
{
    let offset = match lookup_zone_offset(config.timezone.as_str(), now) {
        Some(o) => o,
        None => return None,
    };
    let local = match now.checked_add(offset as i64) {
        Some(v) => v,
        None => return None,
    };
    let date = match lookup_civil_date(local) {
        Some(d) => d,
        None => return None,
    };
    Some(display_info_at(now, config, offset, date, reference_offset_seconds, use_12h_format))
}

/// Work hours that do not both read `"HH:MM"` never count as working, at any instant.
pub proof fn lemma_unparsable_hours_never_working(now: i64, config: TimezoneConfig)
    requires
        hhmm_seconds(config.work_hours.start@) is None || hhmm_seconds(config.work_hours.end@) is None,
    ensures
        !entry_working(now, config),
{
}

} // verus!
