//! UTC offsets for directory-index timestamps, and the timestamp renderings
//! the protocol handler's listings use.
//!
//! The offset arithmetic and validation are verified; the calendar
//! renderings themselves are delegated to the date-handling crates behind
//! named, argument-determined results.

use vstd::prelude::*;

verus! {

/// A component of the offset was outside its admitted range.
#[derive(Clone, Copy, Debug, PartialEq, Eq, Structural)]
pub enum OffsetError {
    OutOfRange,
}

/// A UTC offset in hours, minutes and seconds, for rendering directory-index
/// timestamps in another timezone than UTC.
#[derive(Clone, Copy, Debug, PartialEq, Eq, Structural)]
pub struct UtcOffset {
    pub hours: i8,
    pub minutes: i8,
    pub seconds: i8,
}

/// The minutes component with its sign matched to the hours component.
pub open spec fn norm_minutes(h: int, m: int) -> int {
    if (h > 0 && m < 0) || (h < 0 && m > 0) {
        -m
    } else {
        m
    }
}

/// The seconds component with its sign matched to the hours and (already
/// normalized) minutes components.
pub open spec fn norm_seconds(h: int, m: int, s: int) -> int {
    if (h > 0 && s < 0) || (h < 0 && s > 0) || (m > 0 && s < 0) || (m < 0 && s > 0) {
        -s
    } else {
        s
    }
}

impl UtcOffset {
    /// Every component within its admitted range.
    pub open spec fn wf(&self) -> bool {
        &&& -25 <= self.hours <= 25
        &&& -59 <= self.minutes <= 59
        &&& -59 <= self.seconds <= 59
    }

    /// Create a new `UtcOffset`.
    ///
    /// Hours admit -25 through 25, minutes and seconds -59 through 59;
    /// anything else is rejected.  Components whose signs disagree are
    /// normalized: minutes take the sign of hours, seconds the sign of hours
    /// and of the normalized minutes.
    pub fn new(hours: i8, minutes: i8, seconds: i8) -> (r: Result<UtcOffset, OffsetError>)
        ensures
            r is Ok <==> (-25 <= hours <= 25 && -59 <= minutes <= 59 && -59 <= seconds <= 59),
            r matches Ok(o) ==> {
                &&& o.hours == hours
                &&& o.minutes == norm_minutes(hours as int, minutes as int)
                &&& o.seconds == norm_seconds(hours as int, o.minutes as int, seconds as int)
                &&& o.wf()
            },
    {
        if hours < -25 || hours > 25 || minutes < -59 || minutes > 59 || seconds < -59
            || seconds > 59 {
            return Err(OffsetError::OutOfRange);
        }
        let m: i8 = if (hours > 0 && minutes < 0) || (hours < 0 && minutes > 0) {
            -minutes
        } else {
            minutes
        };
        let s: i8 = if (hours > 0 && seconds < 0) || (hours < 0 && seconds > 0) || (m > 0
            && seconds < 0) || (m < 0 && seconds > 0) {
            -seconds
        } else {
            seconds
        };
        Ok(UtcOffset { hours, minutes: m, seconds: s })
    }

    /// The whole offset in seconds east of UTC.
    pub fn total_seconds(&self) -> (r: i32)
        requires
            self.wf(),
        ensures
            r == self.hours * 3600 + self.minutes * 60 + self.seconds,
    {
        (self.hours as i32) * 3600 + (self.minutes as i32) * 60 + (self.seconds as i32)
    }
}

/// The shift in seconds an optional offset applies to a timestamp.
pub open spec fn spec_offset_seconds(offset: Option<UtcOffset>) -> int {
    match offset {
        Some(o) => o.hours * 3600 + o.minutes * 60 + o.seconds,
        None => 0,
    }
}

/// The RFC 3339 rendering of a timestamp given in whole seconds since the
/// Unix epoch, e.g. `1996-12-19T16:39:57Z`; out-of-range timestamps render
/// as the epoch itself.
pub uninterp spec fn rfc3339_of(secs: int) -> Seq<char>;

/// Relies on `time::OffsetDateTime::format` with the well-known RFC 3339
/// description: the rendering depends on the timestamp alone.
#[verifier::external_body]
fn format_rfc3339(secs: i64) -> (r: String)
    ensures
        r@ == rfc3339_of(secs as int),
{
    match ::time::OffsetDateTime::from_unix_timestamp(secs) {
        Ok(t) => match t.format(&::time::format_description::well_known::Rfc3339) {
            Ok(s) => s,
            Err(_) => String::from("1970-01-01T00:00:00Z"),
        },
        Err(_) => String::from("1970-01-01T00:00:00Z"),
    }
}

/// Render a timestamp, in whole seconds since the Unix epoch, as RFC 3339.
pub fn systemtime_to_rfc3339(secs: i64) -> (r: String)
    ensures
        r@ == rfc3339_of(secs as int),
{
    format_rfc3339(secs)
}

/// The minute-resolution rendering of a timestamp given in whole seconds
/// since the Unix epoch, e.g. `1996-12-19 17:39`; out-of-range timestamps
/// render as the epoch itself.
pub uninterp spec fn minute_stamp_of(secs: int) -> Seq<char>;

/// Relies on `time::OffsetDateTime::format` with a year-month-day
/// hour:minute description: the rendering depends on the timestamp alone.
#[verifier::external_body]
fn format_minute_stamp(secs: i64) -> (r: String)
    ensures
        r@ == minute_stamp_of(secs as int),
{
    let desc = ::time::format_description::parse_owned::<2>("[year]-[month]-[day] [hour]:[minute]");
    let desc = match desc {
        Ok(d) => d,
        Err(_) => return String::from("1970-01-01T00:00:00Z"),
    };
    match ::time::OffsetDateTime::from_unix_timestamp(secs) {
        Ok(t) => match t.format(&desc) {
            Ok(s) => s,
            Err(_) => String::from("1970-01-01T00:00:00Z"),
        },
        Err(_) => String::from("1970-01-01T00:00:00Z"),
    }
}

/// Render a timestamp, in whole seconds since the Unix epoch, at minute
/// resolution in the local time the offset describes; with no offset, in
/// UTC.
pub fn systemtime_to_localtime(secs: i64, offset: Option<UtcOffset>) -> (r: String)
    requires
        i64::MIN + 100000 <= secs <= i64::MAX - 100000,
        offset matches Some(o) ==> o.wf(),
    ensures
        r@ == minute_stamp_of(secs + spec_offset_seconds(offset)),
{
    let shift: i64 = match offset {
        Some(o) => o.total_seconds() as i64,
        None => 0,
    };
    format_minute_stamp(secs + shift)
}

/// The HTTP-date rendering of a timestamp given in whole seconds since the
/// Unix epoch, e.g. `Sun, 06 Nov 1994 08:49:37 GMT`.
pub uninterp spec fn httpdate_of(secs: int) -> Seq<char>;

/// Relies on `headers::Date`'s encoding of a system time: the rendering
/// depends on the timestamp alone.
#[verifier::external_body]
fn format_httpdate(secs: u64) -> (r: String)
    requires
        secs <= 253402300799,
    ensures
        r@ == httpdate_of(secs as int),
{
    let t = std::time::UNIX_EPOCH + std::time::Duration::from_secs(secs);
    let date = headers::Date::from(t);
    let mut values: Vec<http::HeaderValue> = Vec::new();
    <headers::Date as headers::Header>::encode(&date, &mut values);
    match values.first() {
        Some(v) => match v.to_str() {
            Ok(s) => s.to_owned(),
            Err(_) => String::new(),
        },
        None => String::new(),
    }
}

/// Render a timestamp, in whole seconds since the Unix epoch, as an
/// HTTP-date.  Timestamps are admitted up to the last second of year 9999.
pub fn systemtime_to_httpdate(secs: u64) -> (r: String)
    requires
        secs <= 253402300799,
    ensures
        r@ == httpdate_of(secs as int),
{
    format_httpdate(secs)
}

} // verus!
