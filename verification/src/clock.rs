//! Time stamps and their display as `DD/MM/YYYY HH:MM:SS` in UTC.
//!
//! An instant is held as seconds and nanoseconds from the Unix epoch. The
//! calendar date and time of day that belong to it come from the `chrono`
//! crate; the text layout is computed here.

use crate::decimal::{padded, push_padded};
use chrono::{Datelike, Timelike};
use vstd::prelude::*;
use vstd::string::*;

verus! {

/// An instant, counted from 1970-01-01 00:00:00 UTC: whole seconds, which may
/// be negative, and the nanoseconds that follow them.
#[derive(Clone, Copy, Debug, PartialEq, Eq, Structural)]
pub struct Timestamp {
    pub secs: i64,
    pub nanos: u32,
}

/// A calendar date and a time of day in UTC.
#[derive(Clone, Copy, Debug, PartialEq, Eq, Structural)]
pub struct CivilTime {
    pub year: i32,
    pub month: u32,
    pub day: u32,
    pub hour: u32,
    pub minute: u32,
    pub second: u32,
}

/// The calendar reading of the instant `secs` seconds and `nanos` nanoseconds
/// from the Unix epoch, as `chrono` computes it, or `None` where `chrono`
/// has no date for it.
pub uninterp spec fn utc_civil(secs: int, nanos: int) -> Option<CivilTime>;

/// Asks `chrono` for the calendar reading of an instant.
///
/// Calls `chrono::DateTime::from_timestamp` and reads the year, month, day,
/// hour, minute and second of what it returns. Nothing is proved of the
/// calendar arithmetic: the contract only gives the outcome its name,
/// `utc_civil`, which rests on the call being a function of its two
/// arguments alone.
#[verifier::external_body]
fn civil_from_unix(secs: i64, nanos: u32) -> (civil: Option<CivilTime>)
    ensures
        civil == utc_civil(secs as int, nanos as int),
{
    match chrono::DateTime::from_timestamp(secs, nanos) {
        Some(t) => Some(
            CivilTime {
                year: t.year(),
                month: t.month(),
                day: t.day(),
                hour: t.hour(),
                minute: t.minute(),
                second: t.second(),
            },
        ),
        None => None,
    }
}

impl Timestamp {
    /// Whether this instant comes strictly after `other`.
    pub open spec fn is_after(self, other: Timestamp) -> bool {
        self.secs > other.secs || (self.secs == other.secs && self.nanos > other.nanos)
    }

    /// Whether this instant comes strictly after `other`.
    pub fn after(&self, other: &Timestamp) -> (later: bool)
        ensures
            later == self.is_after(*other),
    {
        self.secs > other.secs || (self.secs == other.secs && self.nanos > other.nanos)
    }
}

/// The later of two instants; the first where neither is later.
pub open spec fn later_of(a: Timestamp, b: Timestamp) -> Timestamp {
    if b.is_after(a) {
        b
    } else {
        a
    }
}

/// The text shown where no time is known.
pub open spec fn unknown_text() -> Seq<char> {
    seq!['U', 'n', 'k', 'n', 'o', 'w', 'n']
}

/// A year as text: four digits from 0 to 9999, and outside that range a sign
/// followed by at least four digits.
pub open spec fn year_text(year: int) -> Seq<char> {
    if 0 <= year <= 9_999 {
        padded(year as nat, 4)
    } else if year < 0 {
        seq!['-'] + padded((-year) as nat, 4)
    } else {
        seq!['+'] + padded(year as nat, 4)
    }
}

/// A calendar reading laid out as `DD/MM/YYYY HH:MM:SS`.
pub open spec fn civil_text(c: CivilTime) -> Seq<char> {
    padded(c.day as nat, 2) + seq!['/'] + padded(c.month as nat, 2) + seq!['/'] + year_text(
        c.year as int,
    ) + seq![' '] + padded(c.hour as nat, 2) + seq![':'] + padded(c.minute as nat, 2) + seq![':']
        + padded(c.second as nat, 2)
}

/// The display text of an instant, where it has a calendar reading.
pub open spec fn time_text(time: Timestamp) -> Option<Seq<char>> {
    match utc_civil(time.secs as int, time.nanos as int) {
        Some(c) => Some(civil_text(c)),
        None => None,
    }
}

/// The display text of a modification time that may be missing: the text of
/// the instant, or `Unknown` where there is no instant or no calendar reading
/// of it.
pub open spec fn modified_text(modified: Option<Timestamp>) -> Seq<char> {
    match modified {
        Some(time) => match time_text(time) {
            Some(text) => text,
            None => unknown_text(),
        },
        None => unknown_text(),
    }
}

/// Appends a year to `out`.
fn push_year(out: &mut String, year: i32)
    ensures
        final(out)@ == old(out)@ + year_text(year as int),
{
    let wide: i64 = year as i64;
    if 0 <= wide && wide <= 9_999 {
        push_padded(out, wide as u64, 4);
    } else if wide < 0 {
        proof {
            reveal_strlit("-");
        }
        out.append("-");
        push_padded(out, (0 - wide) as u64, 4);
        assert(out@ =~= old(out)@ + (seq!['-'] + padded((-year) as nat, 4)));
    } else {
        proof {
            reveal_strlit("+");
        }
        out.append("+");
        push_padded(out, wide as u64, 4);
        assert(out@ =~= old(out)@ + (seq!['+'] + padded(year as nat, 4)));
    }
}

/// Lays a calendar reading out as `DD/MM/YYYY HH:MM:SS`, each field but the
/// year filled with zeros to two digits.
pub fn format_civil(c: &CivilTime) -> (text: String)
    ensures
        text@ == civil_text(*c),
{
    let mut out = String::new();
    proof {
        reveal_strlit("/");
        reveal_strlit(" ");
        reveal_strlit(":");
    }
    push_padded(&mut out, c.day as u64, 2);
    out.append("/");
    push_padded(&mut out, c.month as u64, 2);
    out.append("/");
    push_year(&mut out, c.year);
    out.append(" ");
    push_padded(&mut out, c.hour as u64, 2);
    out.append(":");
    push_padded(&mut out, c.minute as u64, 2);
    out.append(":");
    push_padded(&mut out, c.second as u64, 2);
    assert(out@ =~= civil_text(*c));
    out
}

/// Renders an instant as `DD/MM/YYYY HH:MM:SS` in UTC.
///
/// The instant must have a calendar reading; `checked_readable_time` tests
/// that first.
pub fn human_readable_time(time: Timestamp) -> (text: String)
    requires
        utc_civil(time.secs as int, time.nanos as int) is Some,
    ensures
        time_text(time) == Some(text@),
{
    match civil_from_unix(time.secs, time.nanos) {
        Some(c) => format_civil(&c),
        None => String::new(),
    }
}

/// Renders an instant as `DD/MM/YYYY HH:MM:SS` in UTC, or returns `None`
/// where the instant has no calendar reading.
pub fn checked_readable_time(time: Timestamp) -> (text: Option<String>)
    ensures
        match text {
            Some(t) => time_text(time) == Some(t@),
            None => time_text(time) is None,
        },
{
    match civil_from_unix(time.secs, time.nanos) {
        Some(_) => Some(human_readable_time(time)),
        None => None,
    }
}

/// Renders a modification time that may be missing: the instant's text, or
/// `Unknown` where there is no instant or no calendar reading of it.
pub fn readable_modified(modified: Option<Timestamp>) -> (text: String)
    ensures
        text@ == modified_text(modified),
{
    let shown = match modified {
        Some(time) => checked_readable_time(time),
        None => None,
    };
    match shown {
        Some(text) => text,
        None => {
            proof {
                reveal_strlit("Unknown");
            }
            let text = "Unknown".to_owned();
            assert(text@ =~= unknown_text());
            text
        },
    }
}

} // verus!
