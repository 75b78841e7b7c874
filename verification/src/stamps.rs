//! Timestamps (microseconds since the Unix epoch) as text, with chrono:
//! the RFC 3339 form the mailbox's read mark is stored in, and the dates
//! and times the pages show. Reading and writing the state file is the
//! host's part.

use vstd::prelude::*;

use crate::lines::{trim, trim_chars};
use crate::steps::opt_chars;
use crate::text::{chars_of, string_from_chars};

verus! {

/// The instant an RFC 3339 text names, in microseconds since the Unix
/// epoch, or `None` when chrono does not read it as one. A function of the
/// text alone.
pub uninterp spec fn rfc3339_micros(s: Seq<char>) -> Option<i64>;

/// chrono's `DateTime::parse_from_rfc3339`, read as its instant
/// (`timestamp_micros`); named by [`rfc3339_micros`].
#[verifier::external_body]
fn parse_rfc3339_micros(s: &str) -> (r: Option<i64>)
    ensures
        r == rfc3339_micros(s@),
{
    match chrono::DateTime::parse_from_rfc3339(s) {
        Ok(d) => Some(d.timestamp_micros()),
        Err(_) => None,
    }
}

/// The RFC 3339 text of an instant in UTC, or `None` for an instant chrono
/// cannot represent. A function of the instant alone.
pub uninterp spec fn micros_rfc3339(ts: i64) -> Option<Seq<char>>;

/// chrono's `DateTime::<Utc>::from_timestamp_micros`, then `to_rfc3339`;
/// named by [`micros_rfc3339`].
#[verifier::external_body]
fn format_rfc3339_micros(ts: i64) -> (r: Option<String>)
    ensures
        opt_chars(r) == micros_rfc3339(ts),
{
    chrono::DateTime::<chrono::Utc>::from_timestamp_micros(ts).map(|d| d.to_rfc3339())
}

/// The read mark a state file holds: its text, surrounding whitespace
/// ignored, read as an RFC 3339 instant; `None` for a garbled file.
pub fn seen_from_text(text: &str) -> (r: Option<i64>)
    ensures
        r == rfc3339_micros(trim(text@)),
{
    let t = string_from_chars(&trim_chars(&chars_of(text)));
    parse_rfc3339_micros(t.as_str())
}

/// What the state file holds for a read mark: its RFC 3339 text, or
/// nothing for an instant that has none.
pub fn seen_text(ts: i64) -> (r: Option<String>)
    ensures
        opt_chars(r) == micros_rfc3339(ts),
{
    format_rfc3339_micros(ts)
}

/// The patterns the pages write times in: the day, the day and minute, and
/// the month, day and minute.
pub open spec fn page_pattern(p: Seq<char>) -> bool {
    p == "%Y-%m-%d"@ || p == "%Y-%m-%d %H:%M"@ || p == "%m-%d %H:%M"@
}

/// The text of an instant in UTC written in a `strftime` pattern, or `None`
/// for an instant chrono cannot represent. A function of its arguments
/// alone.
pub uninterp spec fn utc_text(ts: i64, pattern: Seq<char>) -> Option<Seq<char>>;

/// chrono's `DateTime::<Utc>::from_timestamp_micros`, then `format` with
/// the pattern, written out; named by [`utc_text`]. Only the pages'
/// patterns are handed to it (writing an ill-formed pattern panics).
#[verifier::external_body]
fn format_utc(ts: i64, pattern: &str) -> (r: Option<String>)
    requires
        page_pattern(pattern@),
    ensures
        opt_chars(r) == utc_text(ts, pattern@),
{
    chrono::DateTime::<chrono::Utc>::from_timestamp_micros(ts).map(|d| d.format(pattern).to_string())
}

/// `t`, or nothing.
pub open spec fn or_nothing(t: Option<Seq<char>>) -> Seq<char> {
    match t {
        Some(s) => s,
        None => Seq::empty(),
    }
}

fn text_or_nothing(t: Option<String>) -> (r: String)
    ensures
        r@ == or_nothing(opt_chars(t)),
{
    match t {
        Some(s) => s,
        None => String::new(),
    }
}

/// The day of an instant (`YYYY-MM-DD`, UTC), as the project page shows a
/// last touch; empty for an instant out of range.
pub fn day_text(ts: i64) -> (r: String)
    ensures
        r@ == or_nothing(utc_text(ts, "%Y-%m-%d"@)),
{
    proof {
        reveal_strlit("%Y-%m-%d");
    }
    text_or_nothing(format_utc(ts, "%Y-%m-%d"))
}

/// The day and minute of an instant (`YYYY-MM-DD HH:MM`, UTC), as the
/// activity page's detail shows an entry; empty for an instant out of
/// range.
pub fn moment_text(ts: i64) -> (r: String)
    ensures
        r@ == or_nothing(utc_text(ts, "%Y-%m-%d %H:%M"@)),
{
    proof {
        reveal_strlit("%Y-%m-%d %H:%M");
    }
    text_or_nothing(format_utc(ts, "%Y-%m-%d %H:%M"))
}

/// The month, day and minute of an instant (`MM-DD HH:MM`, UTC), as the
/// activity page's rows show an entry; empty for an instant out of range.
pub fn short_moment_text(ts: i64) -> (r: String)
    ensures
        r@ == or_nothing(utc_text(ts, "%m-%d %H:%M"@)),
{
    proof {
        reveal_strlit("%m-%d %H:%M");
    }
    text_or_nothing(format_utc(ts, "%m-%d %H:%M"))
}

} // verus!
