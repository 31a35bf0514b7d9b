//! Timestamps: RFC 3339 parsing through `chrono`, and the short local times
//! shown beside messages.
use vstd::prelude::*;
use chrono::{Datelike, Timelike};
use crate::num::{nat_decimal, push_zero_padded, zero_padded};
use crate::text::{chars_of, extend_chars, extend_str, string_of, trim, trim_str};

verus! {

/// What `DateTime::parse_from_rfc3339(value)` followed by `.timestamp()`
/// gives: the seconds since the Unix epoch of an RFC 3339 time, or `None`
/// where the text is not one.
pub uninterp spec fn rfc3339_epoch(value: Seq<char>) -> Option<int>;

/// The seconds since the epoch of an RFC 3339 time. The parser takes a
/// four-digit year and an offset of less than a day, so the time lies
/// between the years 0000 and 9999.
#[verifier::external_body]
pub(crate) fn rfc3339_seconds(value: &str) -> (r: Option<i64>)
    ensures
        r matches Some(t) ==> rfc3339_epoch(value@) == Some(t as int) && rfc3339_range(t as int),
        r is None ==> rfc3339_epoch(value@) is None,
{
    match chrono::DateTime::parse_from_rfc3339(value) {
        Ok(t) => Some(t.timestamp()),
        Err(_) => None,
    }
}

/// A date and time of day in the machine's time zone.
#[derive(Clone, Copy)]
pub struct LocalStamp {
    pub year: i32,
    pub month: u32,
    pub day: u32,
    pub hour: u32,
    pub minute: u32,
}

/// The fields of a stamp lie in their ranges.
pub open spec fn stamp_ok(s: LocalStamp) -> bool {
    -262144 <= s.year <= 262143 && 1 <= s.month <= 12 && 1 <= s.day <= 31 && s.hour < 24
        && s.minute < 60
}

/// The stamp is the UTC calendar time of `epoch` moved by some offset of
/// less than a day: what a time in any fixed-offset zone reads.
pub open spec fn local_of(epoch: int, s: LocalStamp) -> bool {
    exists|off: int|
        -86400 < off < 86400 && #[trigger] utc_fields((epoch + off) as i64) == Some(
            (s.year, s.month, s.day, s.hour, s.minute),
        )
}

/// The seconds since the epoch of the times from the year 0000 to the year
/// 9999, with a day to spare on each side.
pub open spec fn rfc3339_range(epoch: int) -> bool {
    -62_168_000_000 < epoch < 253_403_000_000
}

/// An RFC 3339 time converted to the machine's time zone. The zone is the
/// machine's, so the contract says: a stamp comes back exactly where the text
/// parses; its fields lie in range; and, since `with_timezone` keeps the
/// instant and `Local`'s offset is a `FixedOffset` (less than a day from
/// UTC), the stamp is the time's UTC calendar fields moved by some such
/// offset. Which offset is left unsaid: it is the zone's.
#[verifier::external_body]
pub(crate) fn local_stamp(value: &str) -> (r: Option<LocalStamp>)
    ensures
        r is Some <==> rfc3339_epoch(value@) is Some,
        r matches Some(s) ==> stamp_ok(s),
        r matches Some(s) ==> (rfc3339_epoch(value@) matches Some(e) && local_of(e, s)),
{
    let t = chrono::DateTime::parse_from_rfc3339(value).ok()?.with_timezone(&chrono::Local);
    Some(LocalStamp { year: t.year(), month: t.month(), day: t.day(), hour: t.hour(), minute: t.minute() })
}

/// The current date and time in the machine's time zone; it depends on the
/// clock and the zone, so only the ranges of its fields are stated.
#[verifier::external_body]
pub(crate) fn local_now() -> (r: LocalStamp)
    ensures
        stamp_ok(r),
{
    let t = chrono::Local::now();
    LocalStamp { year: t.year(), month: t.month(), day: t.day(), hour: t.hour(), minute: t.minute() }
}

/// The current time in seconds since the epoch; it depends on the clock, so
/// only its range is stated.
#[verifier::external_body]
pub(crate) fn utc_now_seconds() -> (r: i64)
    ensures
        -0x1000_0000_0000 < r < 0x1000_0000_0000,
{
    chrono::Utc::now().timestamp()
}

/// `%Y` of `chrono`: four digits at least, with a sign outside 0..=9999.
pub open spec fn year_text(y: int) -> Seq<char> {
    if 0 <= y <= 9999 {
        zero_padded(y as nat, 4)
    } else if y > 9999 {
        seq!['+'] + zero_padded(y as nat, 4)
    } else {
        seq!['-'] + zero_padded((-y) as nat, 4)
    }
}

/// `HH:MM`.
pub open spec fn hm_text(s: LocalStamp) -> Seq<char> {
    zero_padded(s.hour as nat, 2) + seq![':'] + zero_padded(s.minute as nat, 2)
}

/// The time of day for today, day and month within this year, the full date
/// otherwise.
pub open spec fn compact_time_spec(s: LocalStamp, now: LocalStamp) -> Seq<char> {
    if s.year == now.year && s.month == now.month && s.day == now.day {
        hm_text(s)
    } else if s.year == now.year {
        zero_padded(s.day as nat, 2) + seq!['-'] + zero_padded(s.month as nat, 2) + seq![' ']
            + hm_text(s)
    } else {
        year_text(s.year as int) + seq!['-'] + zero_padded(s.month as nat, 2) + seq!['-']
            + zero_padded(s.day as nat, 2) + seq![' '] + hm_text(s)
    }
}

fn push_hm(out: &mut Vec<char>, s: &LocalStamp)
    ensures
        final(out)@ == old(out)@ + hm_text(*s),
{
    push_zero_padded(out, s.hour as u64, 2);
    out.push(':');
    push_zero_padded(out, s.minute as u64, 2);
}

fn push_year(out: &mut Vec<char>, y: i32)
    ensures
        final(out)@ == old(out)@ + year_text(y as int),
{
    if 0 <= y && y <= 9999 {
        push_zero_padded(out, y as u64, 4);
    } else if y > 9999 {
        out.push('+');
        push_zero_padded(out, y as u64, 4);
    } else {
        out.push('-');
        let m: u64 = ((-(y as i64)) as u64);
        push_zero_padded(out, m, 4);
    }
}

/// Writes a stamp relative to the current date.
pub fn compact_time_text(s: &LocalStamp, now: &LocalStamp) -> (r: String)
    ensures
        r@ == compact_time_spec(*s, *now),
{
    let mut out: Vec<char> = Vec::new();
    if s.year == now.year && s.month == now.month && s.day == now.day {
        push_hm(&mut out, s);
    } else if s.year == now.year {
        push_zero_padded(&mut out, s.day as u64, 2);
        out.push('-');
        push_zero_padded(&mut out, s.month as u64, 2);
        out.push(' ');
        push_hm(&mut out, s);
    } else {
        push_year(&mut out, s.year);
        out.push('-');
        push_zero_padded(&mut out, s.month as u64, 2);
        out.push('-');
        push_zero_padded(&mut out, s.day as u64, 2);
        out.push(' ');
        push_hm(&mut out, s);
    }
    string_of(&out)
}

/// What is shown for a time that does not parse: the text, or `unknown`
/// where it is blank.
pub open spec fn time_fallback(value: Seq<char>) -> Seq<char> {
    if trim(value).len() == 0 {
        "unknown"@
    } else {
        value
    }
}

/// A text that [`compact_local_time`] may give for `value`: the fallback
/// where it does not parse, else the compact form, against some valid
/// current date, of the stored time as read in some zone less than a day
/// from UTC.
pub open spec fn compact_time_ok(value: Seq<char>, t: Seq<char>) -> bool {
    match rfc3339_epoch(value) {
        None => t == time_fallback(value),
        Some(e) => exists|s: LocalStamp, n: LocalStamp|
            stamp_ok(s) && stamp_ok(n) && local_of(e, s) && t
                == #[trigger] compact_time_spec(s, n),
    }
}

/// A stored time as a short local time: `HH:MM` today, `DD-MM HH:MM` this
/// year, `YYYY-MM-DD HH:MM` before.
pub fn compact_local_time(value: &str) -> (r: String)
    ensures
        compact_time_ok(value@, r@),
{
    match local_stamp(value) {
        None => {
            let t = trim_str(value);
            if t.len() == 0 {
                String::from_str("unknown")
            } else {
                String::from_str(value)
            }
        },
        Some(s) => {
            let now = local_now();
            let r = compact_time_text(&s, &now);
            assert(compact_time_spec(s, now) == r@);
            r
        },
    }
}

/// What `DateTime::<Utc>::from_timestamp(epoch, 0)` followed by
/// `.to_rfc3339()` gives: the RFC 3339 text of a time in seconds since the
/// epoch, or `None` where `chrono` cannot represent it.
pub uninterp spec fn epoch_rfc3339(epoch: i64) -> Option<Seq<char>>;

/// A time in seconds since the epoch, written in RFC 3339.
#[verifier::external_body]
fn chrono_epoch_to_rfc3339(epoch: i64) -> (r: Option<String>)
    ensures
        r matches Some(s) ==> epoch_rfc3339(epoch) == Some(s@),
        r is None ==> epoch_rfc3339(epoch) is None,
{
    match chrono::DateTime::<chrono::Utc>::from_timestamp(epoch, 0) {
        Some(t) => Some(t.to_rfc3339()),
        None => None,
    }
}

/// Writes a time in seconds since the epoch in RFC 3339 (UTC).
pub fn epoch_to_rfc3339(epoch: i64) -> (r: Option<String>)
    ensures
        r matches Some(s) ==> epoch_rfc3339(epoch) == Some(s@),
        r is None ==> epoch_rfc3339(epoch) is None,
{
    chrono_epoch_to_rfc3339(epoch)
}

// ---------------------------------------------------------------------------
// Relative times
// ---------------------------------------------------------------------------

/// What `DateTime::<Utc>::from_timestamp(epoch, 0)` gives as year, month,
/// day, hour and minute; `None` where `chrono` cannot represent the time.
pub uninterp spec fn utc_fields(epoch: i64) -> Option<(i32, u32, u32, u32, u32)>;

/// The calendar date and time of day in UTC of a time in seconds since the
/// epoch, through `chrono`; month, day, hour and minute lie in their ranges.
#[verifier::external_body]
fn utc_civil(epoch: i64) -> (r: Option<(i32, u32, u32, u32, u32)>)
    ensures
        r == utc_fields(epoch),
        r matches Some(f) ==> 1 <= f.1 <= 12 && 1 <= f.2 <= 31 && f.3 < 24 && f.4 < 60,
{
    match chrono::DateTime::<chrono::Utc>::from_timestamp(epoch, 0) {
        Some(t) => Some((t.year(), t.month(), t.day(), t.hour(), t.minute())),
        None => None,
    }
}

/// The English abbreviation of a month (`%b`).
pub open spec fn month_abbrev(m: u32) -> Seq<char> {
    if m == 1 {
        "Jan"@
    } else if m == 2 {
        "Feb"@
    } else if m == 3 {
        "Mar"@
    } else if m == 4 {
        "Apr"@
    } else if m == 5 {
        "May"@
    } else if m == 6 {
        "Jun"@
    } else if m == 7 {
        "Jul"@
    } else if m == 8 {
        "Aug"@
    } else if m == 9 {
        "Sep"@
    } else if m == 10 {
        "Oct"@
    } else if m == 11 {
        "Nov"@
    } else {
        "Dec"@
    }
}

fn month_abbrev_of(m: u32) -> (r: &'static str)
    ensures
        r@ == month_abbrev(m),
{
    if m == 1 {
        "Jan"
    } else if m == 2 {
        "Feb"
    } else if m == 3 {
        "Mar"
    } else if m == 4 {
        "Apr"
    } else if m == 5 {
        "May"
    } else if m == 6 {
        "Jun"
    } else if m == 7 {
        "Jul"
    } else if m == 8 {
        "Aug"
    } else if m == 9 {
        "Sep"
    } else if m == 10 {
        "Oct"
    } else if m == 11 {
        "Nov"
    } else {
        "Dec"
    }
}

/// `%b %-d %H:%M` of UTC fields.
pub open spec fn month_day_text(f: (i32, u32, u32, u32, u32)) -> Seq<char> {
    month_abbrev(f.1) + seq![' '] + nat_decimal(f.2 as nat) + seq![' '] + zero_padded(
        f.3 as nat,
        2,
    ) + seq![':'] + zero_padded(f.4 as nat, 2)
}

/// A stored time relative to `now` (seconds since the epoch), read to the
/// second: `in …` ahead of now by a minute or more, `just now` within a
/// minute, `… ago` within two days, else the UTC date and time as
/// `Mon D HH:MM`; the text itself where it does not parse (`unknown` for a
/// blank one).
pub open spec fn short_time_spec(value: Seq<char>, now: i64) -> Seq<char> {
    match rfc3339_epoch(value) {
        None => time_fallback(value),
        Some(t) => {
            let delta = t - now;
            let past = now - t;
            if delta >= 60 {
                crate::shared::duration_spec(delta, "in "@)
            } else if past < 60 {
                "just now"@
            } else if past < 172800 {
                crate::shared::duration_spec(past, Seq::empty()) + " ago"@
            } else {
                match utc_fields(t as i64) {
                    Some(f) => month_day_text(f),
                    None => value,
                }
            }
        },
    }
}

fn push_month_day(out: &mut Vec<char>, f: (i32, u32, u32, u32, u32))
    ensures
        final(out)@ == old(out)@ + month_day_text(f),
{
    extend_str(out, month_abbrev_of(f.1));
    out.push(' ');
    crate::num::push_decimal(out, f.2 as u64);
    out.push(' ');
    push_zero_padded(out, f.3 as u64, 2);
    out.push(':');
    push_zero_padded(out, f.4 as u64, 2);
}

/// A stored time relative to `now` (seconds since the epoch).
pub fn short_time_at(value: &str, now: i64) -> (r: String)
    requires
        -0x1000_0000_0000 < now < 0x1000_0000_0000,
    ensures
        r@ == short_time_spec(value@, now),
{
    match rfc3339_seconds(value) {
        None => {
            let t = trim_str(value);
            let r = if t.len() == 0 {
                String::from_str("unknown")
            } else {
                String::from_str(value)
            };
            r
        },
        Some(t) => {
            let delta = t - now;
            let past = now - t;
            if delta >= 60 {
                let r = crate::shared::format_duration(delta, "in ");
                r
            } else if past < 60 {
                let r = String::from_str("just now");
                r
            } else if past < 172800 {
                let d = crate::shared::format_duration(past, "");
                proof {
                    reveal_strlit("");
                }
                let mut out = chars_of(d.as_str());
                extend_str(&mut out, " ago");
                let r = string_of(&out);
                r
            } else {
                match utc_civil(t) {
                    Some(f) => {
                        let mut out: Vec<char> = Vec::new();
                        push_month_day(&mut out, f);
                        let r = string_of(&out);
                                r
                    },
                    None => {
                        let r = String::from_str(value);
                                r
                    },
                }
            }
        },
    }
}

/// A stored time relative to now.
pub fn short_time(value: &str) -> (r: String)
    ensures
        exists|now: i64|
            -0x1000_0000_0000 < now < 0x1000_0000_0000 && r@ == #[trigger] short_time_spec(
                value@,
                now,
            ),
{
    let now = utc_now_seconds();
    short_time_at(value, now)
}

/// `%Y-%m-%d %H:%M UTC` of UTC fields.
pub open spec fn utc_date_text(f: (i32, u32, u32, u32, u32)) -> Seq<char> {
    year_text(f.0 as int) + seq!['-'] + zero_padded(f.1 as nat, 2) + seq!['-'] + zero_padded(
        f.2 as nat,
        2,
    ) + seq![' '] + zero_padded(f.3 as nat, 2) + seq![':'] + zero_padded(f.4 as nat, 2)
        + " UTC"@
}

/// A time in seconds since the epoch as `RELATIVE (YYYY-MM-DD HH:MM UTC)`
/// against `now`; `unknown` where `chrono` cannot represent it.
pub open spec fn epoch_date_spec(epoch: i64, now: i64) -> Seq<char> {
    match epoch_rfc3339(epoch) {
        None => "unknown"@,
        Some(value) => {
            let exact = match rfc3339_epoch(value) {
                Some(t) => match utc_fields(t as i64) {
                    Some(f) => utc_date_text(f),
                    None => value,
                },
                None => value,
            };
            short_time_spec(value, now) + " ("@ + exact + ")"@
        },
    }
}

/// A time in seconds since the epoch, relative to `now` and exact.
pub fn format_epoch_date_at(epoch: i64, now: i64) -> (r: String)
    requires
        -0x1000_0000_0000 < now < 0x1000_0000_0000,
    ensures
        r@ == epoch_date_spec(epoch, now),
{
    let value = match epoch_to_rfc3339(epoch) {
        None => return String::from_str("unknown"),
        Some(v) => v,
    };
    let exact = match rfc3339_seconds(value.as_str()) {
        Some(t) => match utc_civil(t) {
            Some(f) => {
                let mut out: Vec<char> = Vec::new();
                push_year(&mut out, f.0);
                out.push('-');
                push_zero_padded(&mut out, f.1 as u64, 2);
                out.push('-');
                push_zero_padded(&mut out, f.2 as u64, 2);
                out.push(' ');
                push_zero_padded(&mut out, f.3 as u64, 2);
                out.push(':');
                push_zero_padded(&mut out, f.4 as u64, 2);
                extend_str(&mut out, " UTC");
                out
            },
            None => chars_of(value.as_str()),
        },
        None => chars_of(value.as_str()),
    };
    let mut out = chars_of(short_time_at(value.as_str(), now).as_str());
    extend_str(&mut out, " (");
    extend_chars(&mut out, &exact);
    extend_str(&mut out, ")");
    string_of(&out)
}

/// A time in seconds since the epoch, relative to now and exact.
pub fn format_epoch_date(epoch: i64) -> (r: String)
    ensures
        exists|now: i64|
            -0x1000_0000_0000 < now < 0x1000_0000_0000 && r@ == #[trigger] epoch_date_spec(
                epoch,
                now,
            ),
{
    let now = utc_now_seconds();
    format_epoch_date_at(epoch, now)
}

} // verus!
