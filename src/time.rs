//! Dates and times: the two wire encodings, read as instants in the target zone.
use vstd::prelude::*;

use crate::error::Error;
use crate::text::{before_first, chars_of, find_first, push_range, string_of};

verus! {

/// A calendar date.
#[derive(Debug, Clone, Copy, PartialEq, Eq, Structural)]
pub struct Date {
    pub year: i16,
    pub month: i8,
    pub day: i8,
}

/// A date and a time of day, with no time zone.
#[derive(Debug, Clone, Copy, PartialEq, Eq, Structural)]
pub struct CivilDateTime {
    pub date: Date,
    pub hour: i8,
    pub minute: i8,
    pub second: i8,
    pub subsec_nanosecond: i32,
}

/// A point on the global timeline: whole seconds since 1970-01-01T00:00:00Z and
/// the nanoseconds beyond them (of the same sign as `second`).
#[derive(Debug, Clone, Copy, PartialEq, Eq, Structural)]
pub struct Instant {
    pub second: i64,
    pub nanosecond: i32,
}

/// An instant together with the wall-clock reading and UTC offset that a
/// time zone gives it.
#[derive(Debug, Clone, Copy, PartialEq, Eq, Structural)]
pub struct ZonedDateTime {
    pub instant: Instant,
    pub offset_seconds: i32,
    pub local: CivilDateTime,
}

impl ZonedDateTime {
    /// The calendar date of the wall-clock reading.
    pub fn date(&self) -> (r: Date)
        ensures
            r == self.local.date,
    {
        self.local.date
    }
}

/// Whether instant `a` comes before `b`.
pub open spec fn instant_lt(a: Instant, b: Instant) -> bool {
    a.second < b.second || (a.second == b.second && a.nanosecond < b.nanosecond)
}

/// The format of the zone-less wire datetimes.
pub open spec fn civil_format() -> Seq<char> {
    "%Y-%m-%dT%H:%M:%S"@
}

/// The zone in which all decoded times are given.
pub open spec fn target_zone() -> Seq<char> {
    "Europe/London"@
}

/// What jiff's `DateTime::strptime` reads from `text` under `format`.
pub uninterp spec fn strptime_of(format: Seq<char>, text: Seq<char>) -> Option<CivilDateTime>;

/// The instant that jiff gives the civil datetime `dt` read in UTC.
pub uninterp spec fn utc_instant_of(dt: CivilDateTime) -> Option<Instant>;

/// The instant that jiff's `Timestamp` parser reads from `text`.
pub uninterp spec fn timestamp_of(text: Seq<char>) -> Option<Instant>;

/// The reading that jiff gives `instant` in the bundled time zone named `zone`.
pub uninterp spec fn zoned_of(zone: Seq<char>, instant: Instant) -> Option<ZonedDateTime>;

/// Relies on jiff's `DateTime::strptime`: the civil datetime that `text` writes
/// under the strftime-style `format`, if it writes one.
#[verifier::external_body]
fn strptime(format: &str, text: &str) -> (r: Option<CivilDateTime>)
    ensures
        r == strptime_of(format@, text@),
{
    jiff::civil::DateTime::strptime(format, text).ok().map(|d| CivilDateTime {
        date: Date { year: d.year(), month: d.month(), day: d.day() },
        hour: d.hour(),
        minute: d.minute(),
        second: d.second(),
        subsec_nanosecond: d.subsec_nanosecond(),
    })
}

/// Relies on jiff's `DateTime::to_zoned` with `TimeZone::UTC`: the instant at
/// which a UTC clock reads `dt`, where jiff can represent it.
#[verifier::external_body]
fn utc_instant(dt: CivilDateTime) -> (r: Option<Instant>)
    ensures
        r == utc_instant_of(dt),
{
    let d = dt.date;
    jiff::civil::DateTime::new(d.year, d.month, d.day, dt.hour, dt.minute, dt.second, dt.subsec_nanosecond)
        .and_then(|c| c.to_zoned(jiff::tz::TimeZone::UTC))
        .ok()
        .map(|z| Instant { second: z.timestamp().as_second(), nanosecond: z.timestamp().subsec_nanosecond() })
}

/// Relies on jiff's `FromStr` for `Timestamp`: the instant that an RFC 3339
/// text names, if it names one.
#[verifier::external_body]
fn parse_timestamp(text: &str) -> (r: Option<Instant>)
    ensures
        r == timestamp_of(text@),
{
    text.parse::<jiff::Timestamp>().ok().map(|t| Instant { second: t.as_second(), nanosecond: t.subsec_nanosecond() })
}

/// Relies on jiff's bundled time zone database (`TimeZoneDatabase::get`) and
/// `Timestamp::to_zoned`: the reading of `instant` in the zone named `zone`,
/// which keeps the instant itself.
#[verifier::external_body]
fn in_zone(zone: &str, instant: Instant) -> (r: Option<ZonedDateTime>)
    ensures
        r == zoned_of(zone@, instant),
        r matches Some(z) ==> z.instant == instant,
{
    let tz = jiff::tz::TimeZoneDatabase::bundled().get(zone).ok()?;
    let z = jiff::Timestamp::new(instant.second, instant.nanosecond).ok()?.to_zoned(tz);
    let d = z.datetime();
    let date = Date { year: d.year(), month: d.month(), day: d.day() };
    let local = CivilDateTime {
        date,
        hour: d.hour(),
        minute: d.minute(),
        second: d.second(),
        subsec_nanosecond: d.subsec_nanosecond(),
    };
    Some(ZonedDateTime { instant, offset_seconds: z.offset().seconds(), local })
}

/// The reading in the target zone of the instant at which a UTC clock shows
/// `text`, any fractional seconds (from the first `.` on) left out.
pub open spec fn civil_instant(text: Seq<char>) -> Option<ZonedDateTime> {
    match strptime_of(civil_format(), before_first(text, '.')) {
        None => None,
        Some(dt) => match utc_instant_of(dt) {
            None => None,
            Some(i) => zoned_of(target_zone(), i),
        },
    }
}

/// The reading in the target zone of the instant that the RFC 3339 `text` names.
pub open spec fn zulu_instant(text: Seq<char>) -> Option<ZonedDateTime> {
    match timestamp_of(text) {
        None => None,
        Some(i) => zoned_of(target_zone(), i),
    }
}

/// The result of decoding a zone-less datetime.
pub open spec fn civil_datetime(text: String) -> Result<ZonedDateTime, Error> {
    match civil_instant(text@) {
        Some(z) => Ok(z),
        None => Err(Error::DateTime(text)),
    }
}

/// The result of decoding an RFC 3339 datetime.
pub open spec fn zulu_datetime(text: String) -> Result<ZonedDateTime, Error> {
    match zulu_instant(text@) {
        Some(z) => Ok(z),
        None => Err(Error::DateTime(text)),
    }
}

/// Decodes a datetime written `YYYY-MM-DDTHH:MM:SS` in UTC, possibly followed by
/// `.` and fractional seconds, which are dropped; the result is given in the
/// target zone.
pub fn decode_civil_datetime(text: &String) -> (r: Result<ZonedDateTime, Error>)
    ensures
        r == civil_datetime(*text),
{
    let cs = chars_of(text.as_str());
    assert(cs@.subrange(0, cs@.len() as int) =~= cs@);
    let dot = find_first(&cs, 0, cs.len(), '.');
    let mut kept: Vec<char> = Vec::new();
    push_range(&mut kept, &cs, 0, dot);
    let seconds = string_of(kept.as_slice());
    assert(seconds@ == before_first(text@, '.'));
    let found = match strptime("%Y-%m-%dT%H:%M:%S", seconds.as_str()) {
        None => None,
        Some(dt) => match utc_instant(dt) {
            None => None,
            Some(i) => in_zone("Europe/London", i),
        },
    };
    match found {
        Some(z) => Ok(z),
        None => Err(Error::DateTime(text.clone())),
    }
}

/// Decodes an RFC 3339 datetime (such as `2025-08-18T00:00:00Z`); the result
/// is given in the target zone.
pub fn decode_zulu_datetime(text: &String) -> (r: Result<ZonedDateTime, Error>)
    ensures
        r == zulu_datetime(*text),
{
    let found = match parse_timestamp(text.as_str()) {
        None => None,
        Some(i) => in_zone("Europe/London", i),
    };
    match found {
        Some(z) => Ok(z),
        None => Err(Error::DateTime(text.clone())),
    }
}

/// Fractional seconds do not change a decoded zone-less datetime: for a text
/// `d` with no `.`, `d` and `d` followed by `.` and any digits name the same
/// reading.
pub proof fn lemma_fraction_ignored(d: Seq<char>, fraction: Seq<char>)
    requires
        forall|i: int| 0 <= i < d.len() ==> d[i] != '.',
    ensures
        civil_instant(d + seq!['.'] + fraction) == civil_instant(d),
{
    let s = d + seq!['.'] + fraction;
    crate::text::lemma_before_first(s, '.', d.len() as int);
    crate::text::lemma_before_first(d, '.', d.len() as int);
    assert(s.subrange(0, d.len() as int) =~= d);
    assert(d.subrange(0, d.len() as int) =~= d);
}

/// A zone-less datetime and an RFC 3339 datetime that name the same instant
/// decode to the same reading.
pub proof fn lemma_zulu_matches_civil(civil: Seq<char>, zulu: Seq<char>)
    requires
        strptime_of(civil_format(), before_first(civil, '.')) matches Some(dt)
            && utc_instant_of(dt) is Some && utc_instant_of(dt) == timestamp_of(zulu),
    ensures
        zulu_instant(zulu) == civil_instant(civil),
{
}

} // verus!
