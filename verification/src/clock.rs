//! Calendar timestamps in UTC, held as plain components.
//!
//! The pipeline only ever needs a timestamp it can compare and render, so an
//! instant is a struct of year/month/day/hour/minute/second/millisecond in
//! UTC. Reading the machine clock, interpreting an RFC 3339 string and
//! converting to the machine's local clock are done by the `chrono` crate
//! behind trusted wrappers; everything else about timestamps is verified.
use chrono::{Datelike, TimeZone, Timelike};
use vstd::prelude::*;

verus! {

/// One instant in UTC, split into calendar components.
#[derive(Clone, Copy, Debug, PartialEq, Eq, Structural)]
pub struct UtcInstant {
    pub year: u32,
    pub month: u32,
    pub day: u32,
    pub hour: u32,
    pub minute: u32,
    pub second: u32,
    pub milli: u32,
}

pub open spec fn is_leap_year(y: nat) -> bool {
    (y % 4 == 0 && y % 100 != 0) || y % 400 == 0
}

pub open spec fn days_in_month(y: nat, m: nat) -> nat
    recommends
        1 <= m <= 12,
{
    if m == 2 {
        if is_leap_year(y) {
            29 as nat
        } else {
            28 as nat
        }
    } else if m == 4 || m == 6 || m == 9 || m == 11 {
        30 as nat
    } else {
        31 as nat
    }
}

impl UtcInstant {
    /// A well-formed instant: a real calendar date with a four-digit year
    /// and in-range time-of-day components.
    pub open spec fn valid(self) -> bool {
        &&& self.year <= 9999
        &&& 1 <= self.month <= 12
        &&& 1 <= self.day <= days_in_month(self.year as nat, self.month as nat)
        &&& self.hour <= 23
        &&& self.minute <= 59
        &&& self.second <= 59
        &&& self.milli <= 999
    }

    /// The start of the Unix epoch, used as a harmless stand-in when the
    /// platform clock reports components outside the model's range.
    pub fn epoch() -> (r: UtcInstant)
        ensures
            r == (UtcInstant { year: 1970, month: 1, day: 1, hour: 0, minute: 0, second: 0, milli: 0 }),
            r.valid(),
    {
        UtcInstant { year: 1970, month: 1, day: 1, hour: 0, minute: 0, second: 0, milli: 0 }
    }

    /// Builds an instant from components, succeeding exactly on well-formed
    /// calendar dates and times.
    pub fn from_parts(year: u32, month: u32, day: u32, hour: u32, minute: u32, second: u32, milli: u32) -> (r: Option<UtcInstant>)
        ensures
            r matches Some(t) ==> t == (UtcInstant { year, month, day, hour, minute, second, milli }),
            r is Some <==> (UtcInstant { year, month, day, hour, minute, second, milli }).valid(),
    {
        let t = UtcInstant { year, month, day, hour, minute, second, milli };
        if year <= 9999 && 1 <= month && month <= 12 && 1 <= day && day <= days_in_month_exec(year, month)
            && hour <= 23 && minute <= 59 && second <= 59 && milli <= 999 {
            Some(t)
        } else {
            None
        }
    }

    /// Interprets components as reported by the platform clock: milliseconds
    /// are clamped below one second (a leap second reads as `.999`), and any
    /// reading outside the model's calendar range falls back to the epoch.
    pub fn from_raw(year: i32, month: u32, day: u32, hour: u32, minute: u32, second: u32, milli: u32) -> (r: UtcInstant)
        ensures
            r == spec_from_raw(year as int, month, day, hour, minute, second, milli),
            r.valid(),
    {
        let capped: u32 = if milli <= 999 {
            milli
        } else {
            999
        };
        if year < 0 {
            UtcInstant::epoch()
        } else {
            match UtcInstant::from_parts(year as u32, month, day, hour, minute, second, capped) {
                Some(t) => t,
                None => UtcInstant::epoch(),
            }
        }
    }
}

/// The value `UtcInstant::from_raw` returns for given raw components.
pub open spec fn spec_from_raw(year: int, month: u32, day: u32, hour: u32, minute: u32, second: u32, milli: u32) -> UtcInstant {
    let capped: u32 = if milli <= 999 {
        milli
    } else {
        999u32
    };
    let epoch = UtcInstant { year: 1970, month: 1, day: 1, hour: 0, minute: 0, second: 0, milli: 0 };
    if 0 <= year <= 9999 {
        let t = UtcInstant {
            year: year as u32,
            month,
            day,
            hour,
            minute,
            second,
            milli: capped,
        };
        if t.valid() {
            t
        } else {
            epoch
        }
    } else {
        epoch
    }
}

pub fn days_in_month_exec(y: u32, m: u32) -> (r: u32)
    requires
        1 <= m <= 12,
    ensures
        r == days_in_month(y as nat, m as nat),
{
    if m == 2 {
        if (y % 4 == 0 && y % 100 != 0) || y % 400 == 0 {
            29
        } else {
            28
        }
    } else if m == 4 || m == 6 || m == 9 || m == 11 {
        30
    } else {
        31
    }
}

/// The RFC 3339 rendering of an instant at whole-second precision,
/// `YYYY-MM-DDTHH:MM:SSZ`.
pub open spec fn rfc3339_secs(t: UtcInstant) -> Seq<char> {
    crate::text::dec4(t.year as nat) + "-"@ + crate::text::dec2(t.month as nat) + "-"@
        + crate::text::dec2(t.day as nat) + "T"@ + crate::text::dec2(t.hour as nat) + ":"@
        + crate::text::dec2(t.minute as nat) + ":"@ + crate::text::dec2(t.second as nat) + "Z"@
}

/// The RFC 3339 rendering of an instant at millisecond precision,
/// `YYYY-MM-DDTHH:MM:SS.mmmZ`.
pub open spec fn rfc3339_millis(t: UtcInstant) -> Seq<char> {
    crate::text::dec4(t.year as nat) + "-"@ + crate::text::dec2(t.month as nat) + "-"@
        + crate::text::dec2(t.day as nat) + "T"@ + crate::text::dec2(t.hour as nat) + ":"@
        + crate::text::dec2(t.minute as nat) + ":"@ + crate::text::dec2(t.second as nat) + "."@
        + crate::text::dec3(t.milli as nat) + "Z"@
}

/// Renders `t` as RFC 3339 with whole seconds and a `Z` suffix.
pub fn render_rfc3339_secs(t: &UtcInstant) -> (r: String)
    requires
        t.valid(),
    ensures
        r@ == rfc3339_secs(*t),
{
    let mut out = String::new();
    crate::text::push_dec4(&mut out, t.year);
    out.append("-");
    crate::text::push_dec2(&mut out, t.month);
    out.append("-");
    crate::text::push_dec2(&mut out, t.day);
    out.append("T");
    crate::text::push_dec2(&mut out, t.hour);
    out.append(":");
    crate::text::push_dec2(&mut out, t.minute);
    out.append(":");
    crate::text::push_dec2(&mut out, t.second);
    out.append("Z");
    proof {
        assert(out@ =~= rfc3339_secs(*t));
    }
    out
}

/// Renders `t` as RFC 3339 with milliseconds and a `Z` suffix.
pub fn render_rfc3339_millis(t: &UtcInstant) -> (r: String)
    requires
        t.valid(),
    ensures
        r@ == rfc3339_millis(*t),
{
    let mut out = String::new();
    crate::text::push_dec4(&mut out, t.year);
    out.append("-");
    crate::text::push_dec2(&mut out, t.month);
    out.append("-");
    crate::text::push_dec2(&mut out, t.day);
    out.append("T");
    crate::text::push_dec2(&mut out, t.hour);
    out.append(":");
    crate::text::push_dec2(&mut out, t.minute);
    out.append(":");
    crate::text::push_dec2(&mut out, t.second);
    out.append(".");
    crate::text::push_dec3(&mut out, t.milli);
    out.append("Z");
    proof {
        assert(out@ =~= rfc3339_millis(*t));
    }
    out
}

/// The UTC components `chrono` yields for an RFC 3339 string, as
/// (year, month, day, hour, minute, second, millisecond), or `None` where
/// the string does not parse. A function of the string alone.
pub uninterp spec fn rfc3339_utc_of(s: Seq<char>) -> Option<(i32, u32, u32, u32, u32, u32, u32)>;

/// Relies on `chrono::DateTime::parse_from_rfc3339` and the
/// `Datelike`/`Timelike` component accessors after conversion to UTC: the
/// outcome depends on the string alone.
#[verifier::external_body]
pub fn parse_rfc3339_utc(s: &str) -> (r: Option<(i32, u32, u32, u32, u32, u32, u32)>)
    ensures
        r == rfc3339_utc_of(s@),
{
    match chrono::DateTime::parse_from_rfc3339(s) {
        Ok(t) => {
            let u = t.with_timezone(&chrono::Utc);
            Some((u.year(), u.month(), u.day(), u.hour(), u.minute(), u.second(), u.timestamp_subsec_millis()))
        }
        Err(_) => None,
    }
}

/// Relies on `chrono::Utc::now` and the `Datelike`/`Timelike` accessors,
/// whose documentation bounds month by 1..=12, day by 1..=31, hour by 23,
/// minute and second by 59, and milliseconds by 1999 (leap second).
#[verifier::external_body]
pub fn now_utc_raw() -> (r: (i32, u32, u32, u32, u32, u32, u32))
    ensures
        1 <= r.1 <= 12,
        1 <= r.2 <= 31,
        r.3 <= 23,
        r.4 <= 59,
        r.5 <= 59,
        r.6 <= 1999,
{
    let t = chrono::Utc::now();
    (t.year(), t.month(), t.day(), t.hour(), t.minute(), t.second(), t.timestamp_subsec_millis())
}

/// Reads the clock and fits it into the model.
pub fn now_utc() -> (r: UtcInstant)
    ensures
        r.valid(),
{
    let (y, mo, d, h, mi, s, ms) = now_utc_raw();
    UtcInstant::from_raw(y, mo, d, h, mi, s, ms)
}

/// Relies on `chrono::Utc::with_ymd_and_hms`, `DateTime::with_timezone`
/// with `chrono::Local`, and the `Datelike`/`Timelike` accessors: yields the
/// machine-local wall clock (month, day, hour, minute, second) for a UTC
/// instant. The outcome depends on the machine's time zone, so only the
/// documented component ranges are stated.
#[verifier::external_body]
pub fn utc_to_local_clock(t: &UtcInstant) -> (r: Option<(u32, u32, u32, u32, u32)>)
    ensures
        r matches Some(c) ==> {
            &&& 1 <= c.0 <= 12
            &&& 1 <= c.1 <= 31
            &&& c.2 <= 23
            &&& c.3 <= 59
            &&& c.4 <= 59
        },
{
    match chrono::Utc.with_ymd_and_hms(t.year as i32, t.month, t.day, t.hour, t.minute, t.second).single() {
        Some(u) => {
            let l = u.with_timezone(&chrono::Local);
            Some((l.month(), l.day(), l.hour(), l.minute(), l.second()))
        }
        None => None,
    }
}

} // verus!
