use vstd::prelude::*;
use crate::text::{chars_of, dec, dec2, dec2_chars, dec_chars, extend_chars, string_of};

verus! {

// ---------------------------------------------------------------------------
// Names for what chrono and chrono-tz compute
// ---------------------------------------------------------------------------

/// Whether chrono-tz knows a time zone by exactly this IANA name (`Tz::from_str`).
pub uninterp spec fn zone_known(name: Seq<char>) -> bool;

/// The text chrono writes for the UNIX time `ts` with the strftime `pattern`,
/// read in the named IANA zone, or in UTC for `None` (`DateTime::format`).
pub uninterp spec fn time_text(ts: int, zone: Option<Seq<char>>, pattern: Seq<char>) -> Seq<char>;

/// The RFC 3339 text chrono writes for the UNIX time `ts` in UTC (`DateTime::to_rfc3339`).
pub uninterp spec fn rfc3339_text(ts: int) -> Seq<char>;

/// The strftime patterns this library formats with.
pub open spec fn known_pattern(p: Seq<char>) -> bool {
    p == "%Y-%m-%d"@ || p == "%a, %b %-d · %H:%M"@ || p == "%a, %b %-d · %H:%M UTC"@
}

/// Calls `chrono::DateTime::from_timestamp` and formats the moment in UTC with
/// `DateTime::format`. For every `i32` second count chrono's range holds the
/// moment, so a text always comes back; it is the named text for the pattern.
#[verifier::external_body]
fn format_utc(ts: i32, pattern: &str) -> (r: Option<String>)
    requires
        known_pattern(pattern@),
    ensures
        r is Some,
        r matches Some(s) ==> s@ == time_text(ts as int, None, pattern@),
{
    match chrono::DateTime::from_timestamp(i64::from(ts), 0) {
        Some(d) => Some(d.format(pattern).to_string()),
        None => None,
    }
}

/// Looks up the zone with `chrono_tz::Tz::from_str`, then formats the moment
/// from `chrono::DateTime::from_timestamp` in that zone with `DateTime::format`.
/// Claims a text exactly when the zone name is known, and that it is the named
/// text for the zone and pattern.
#[verifier::external_body]
fn format_in_zone(ts: i32, zone: &str, pattern: &str) -> (r: Option<String>)
    requires
        known_pattern(pattern@),
    ensures
        r is Some <==> zone_known(zone@),
        r matches Some(s) ==> s@ == time_text(ts as int, Some(zone@), pattern@),
{
    match (zone.parse::<chrono_tz::Tz>(), chrono::DateTime::from_timestamp(i64::from(ts), 0)) {
        (Ok(tz), Some(d)) => Some(d.with_timezone(&tz).format(pattern).to_string()),
        _ => None,
    }
}

/// Calls `chrono::DateTime::from_timestamp` and `DateTime::to_rfc3339`; for
/// every `i32` second count a text comes back, the named RFC 3339 text.
#[verifier::external_body]
fn format_rfc3339(ts: i32) -> (r: Option<String>)
    ensures
        r is Some,
        r matches Some(s) ==> s@ == rfc3339_text(ts as int),
{
    match chrono::DateTime::from_timestamp(i64::from(ts), 0) {
        Some(d) => Some(d.to_rfc3339()),
        None => None,
    }
}

// ---------------------------------------------------------------------------
// Dates and times shown to the user
// ---------------------------------------------------------------------------

/// The UTC date of a credential's timestamp, as `YYYY-MM-DD`.
pub fn format_date(timestamp: i32) -> (s: String)
    ensures
        s@ == time_text(timestamp as int, None, "%Y-%m-%d"@),
{
    match format_utc(timestamp, "%Y-%m-%d") {
        Some(s) => s,
        None => "unknown".to_owned(),
    }
}

/// When a reminder fires, in the user's time zone when chrono-tz knows it,
/// in UTC (marked "UTC") otherwise.
pub open spec fn reminder_time_of(ts: int, zone: Option<Seq<char>>) -> Seq<char> {
    match zone {
        Some(z) if zone_known(z) => time_text(ts, Some(z), "%a, %b %-d · %H:%M"@),
        _ => time_text(ts, None, "%a, %b %-d · %H:%M UTC"@),
    }
}

/// The time a reminder fires, for the reminder list.
pub fn format_reminder_time(timestamp: i32, timezone: Option<&str>) -> (s: String)
    ensures
        s@ == reminder_time_of(
            timestamp as int,
            match timezone {
                Some(z) => Some(z@),
                None => None,
            },
        ),
{
    match timezone {
        Some(zone) => match format_in_zone(timestamp, zone, "%a, %b %-d · %H:%M") {
            Some(s) => {
                return s;
            },
            None => {},
        },
        None => {},
    }
    match format_utc(timestamp, "%a, %b %-d · %H:%M UTC") {
        Some(s) => s,
        None => "Unknown time".to_owned(),
    }
}

/// The machine-readable time of a reminder (RFC 3339, UTC).
pub fn reminder_datetime_attr(timestamp: i32) -> (s: String)
    ensures
        s@ == rfc3339_text(timestamp as int),
{
    match format_rfc3339(timestamp) {
        Some(s) => s,
        None => String::new(),
    }
}

/// `n` written with at least four digits (`{:04}`).
pub open spec fn dec4(n: nat) -> Seq<char> {
    if n < 10 {
        "000"@ + dec(n)
    } else if n < 100 {
        "00"@ + dec(n)
    } else if n < 1000 {
        seq!['0'] + dec(n)
    } else {
        dec(n)
    }
}

/// A local date and time in the form an HTML `datetime-local` input takes:
/// `YYYY-MM-DDThh:mm`, from a zero-based month.
pub open spec fn local_datetime_of(year: nat, month0: nat, day: nat, hours: nat, minutes: nat) -> Seq<char> {
    dec4(year) + seq!['-'] + dec2(month0 + 1) + seq!['-'] + dec2(day) + seq!['T'] + dec2(hours)
        + seq![':'] + dec2(minutes)
}

fn dec4_chars(n: u64) -> (v: Vec<char>)
    ensures
        v@ == dec4(n as nat),
{
    let d = dec_chars(n);
    let mut v: Vec<char> = if n < 10 {
        chars_of("000")
    } else if n < 100 {
        chars_of("00")
    } else if n < 1000 {
        let mut z = Vec::new();
        z.push('0');
        assert(z@ == seq!['0']);
        z
    } else {
        Vec::new()
    };
    extend_chars(&mut v, d.as_slice());
    if n >= 1000 {
        assert(v@ =~= dec(n as nat));
    }
    v
}

/// The text of a `datetime-local` value for a local date and time
/// (`month0` counts from 0 for January, as the browser reports it).
pub fn local_datetime_text(year: u32, month0: u32, day: u32, hours: u32, minutes: u32) -> (s: String)
    ensures
        s@ == local_datetime_of(year as nat, month0 as nat, day as nat, hours as nat, minutes as nat),
{
    let mut v = dec4_chars(year as u64);
    v.push('-');
    extend_chars(&mut v, dec2_chars(month0 as u64 + 1).as_slice());
    v.push('-');
    extend_chars(&mut v, dec2_chars(day as u64).as_slice());
    v.push('T');
    extend_chars(&mut v, dec2_chars(hours as u64).as_slice());
    v.push(':');
    extend_chars(&mut v, dec2_chars(minutes as u64).as_slice());
    string_of(v.as_slice())
}

} // verus!
