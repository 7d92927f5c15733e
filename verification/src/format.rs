//! How identifiers, times and durations are written for a reader.

use crate::media::optional_view;
use crate::text::{chars_of, decimal, decimal_string, string_of};
use vstd::prelude::*;
use vstd::string::StringExecFns;

verus! {

/// An identifier cut short for display: one of more than 20 characters is
/// its first 12, three dots and its last 5.
pub open spec fn shortened(did: Seq<char>) -> Seq<char> {
    if did.len() > 20 {
        did.subrange(0, 12) + "..."@ + did.subrange(did.len() - 5, did.len() as int)
    } else {
        did
    }
}

/// An identifier cut short for display.
pub fn shorten_did(did: &str) -> (r: String)
    ensures
        r@ == shortened(did@),
{
    let x = chars_of(did);
    if x.len() > 20 {
        let mut r = string_of(&x, 0, 12);
        r.append("...");
        r.append(string_of(&x, x.len() - 5, x.len()).as_str());
        r
    } else {
        did.to_owned()
    }
}

/// What `chrono` reads an RFC 3339 time as and writes back in the form
/// `%Y-%m-%d %H:%M UTC`; `None` where it does not read `iso` as such a time.
pub uninterp spec fn rfc3339_display(iso: Seq<char>) -> Option<Seq<char>>;

/// The whole seconds from the time `from` to the time `to`, both read by
/// `chrono` as RFC 3339 times; `None` where it does not read both.
pub uninterp spec fn rfc3339_seconds_between(from: Seq<char>, to: Seq<char>) -> Option<i64>;

/// `chrono::DateTime::parse_from_rfc3339` and, on what it read, `format`
/// with `%Y-%m-%d %H:%M UTC`. The result depends on the text alone.
#[verifier::external_body]
fn format_rfc3339(iso: &str) -> (r: Option<String>)
    ensures
        optional_view(r) == rfc3339_display(iso@),
{
    match chrono::DateTime::parse_from_rfc3339(iso) {
        Ok(time) => Some(time.format("%Y-%m-%d %H:%M UTC").to_string()),
        Err(_) => None,
    }
}

/// `chrono::DateTime::parse_from_rfc3339` on both texts and, on what it
/// read, `signed_duration_since` and `num_seconds`. The result depends on
/// the two texts alone.
#[verifier::external_body]
fn seconds_between(from: &str, to: &str) -> (r: Option<i64>)
    ensures
        r == rfc3339_seconds_between(from@, to@),
{
    match (chrono::DateTime::parse_from_rfc3339(from), chrono::DateTime::parse_from_rfc3339(to)) {
        (Ok(start), Ok(end)) => Some(end.signed_duration_since(start).num_seconds()),
        _ => None,
    }
}

/// The time as it was formatted, or the text as it came where it could not
/// be read as a time.
pub fn formatted_or_raw(formatted: Option<String>, raw: &str) -> (r: String)
    ensures
        r@ == match formatted {
            Some(t) => t@,
            None => raw@,
        },
{
    match formatted {
        Some(t) => t,
        None => raw.to_owned(),
    }
}

/// A time for a reader: the day and the minute, or the text as it came
/// where it is no RFC 3339 time.
pub fn format_timestamp(iso8601: &str) -> (r: String)
    ensures
        r@ == match rfc3339_display(iso8601@) {
            Some(t) => t,
            None => iso8601@,
        },
{
    formatted_or_raw(format_rfc3339(iso8601), iso8601)
}

/// Nothing after a count of one, `s` after any other.
pub open spec fn plural(n: int) -> Seq<char> {
    if n == 1 {
        Seq::empty()
    } else {
        "s"@
    }
}

/// A span of `secs` seconds for a reader: its two largest units among
/// days, hours, minutes and seconds, the smaller left out where it is
/// zero days or hours down. A span that is not positive is written in
/// seconds, as the remainder of its length by a minute with its sign.
pub open spec fn duration_text(secs: int) -> Seq<char> {
    if secs < 0 {
        if (-secs) % 60 == 0 {
            "0 sec"@
        } else {
            "-"@ + decimal(((-secs) % 60) as nat) + " sec"@
        }
    } else {
        let days = secs / 86400;
        let hours = (secs / 3600) % 24;
        let minutes = (secs / 60) % 60;
        let seconds = secs % 60;
        if days > 0 {
            if hours > 0 {
                decimal(days as nat) + " day"@ + plural(days) + ", "@ + decimal(hours as nat)
                    + " hour"@ + plural(hours)
            } else {
                decimal(days as nat) + " day"@ + plural(days)
            }
        } else if hours > 0 {
            if minutes > 0 {
                decimal(hours as nat) + " hour"@ + plural(hours) + ", "@ + decimal(minutes as nat)
                    + " min"@
            } else {
                decimal(hours as nat) + " hour"@ + plural(hours)
            }
        } else if minutes > 0 {
            decimal(minutes as nat) + " min, "@ + decimal(seconds as nat) + " sec"@
        } else {
            decimal(seconds as nat) + " sec"@
        }
    }
}

fn plural_of(n: u64) -> (s: String)
    ensures
        s@ == plural(n as int),
{
    if n == 1 {
        String::new()
    } else {
        "s".to_owned()
    }
}

/// A span of `secs` seconds for a reader.
pub fn describe_duration(secs: i64) -> (r: String)
    ensures
        r@ == duration_text(secs as int),
{
    if secs < 0 {
        let magnitude: u64 = (-(secs + 1)) as u64 + 1;
        let k: u64 = magnitude % 60;
        if k == 0 {
            return "0 sec".to_owned();
        }
        let mut r = String::from_str("-");
        r.append(decimal_string(k).as_str());
        r.append(" sec");
        return r;
    }
    let total: u64 = secs as u64;
    let days: u64 = total / 86400;
    let hours: u64 = (total / 3600) % 24;
    let minutes: u64 = (total / 60) % 60;
    let seconds: u64 = total % 60;
    let mut r = String::new();
    let ghost start = r@;
    if days > 0 {
        r.append(decimal_string(days).as_str());
        r.append(" day");
        r.append(plural_of(days).as_str());
        if hours > 0 {
            r.append(", ");
            r.append(decimal_string(hours).as_str());
            r.append(" hour");
            r.append(plural_of(hours).as_str());
        }
    } else if hours > 0 {
        r.append(decimal_string(hours).as_str());
        r.append(" hour");
        r.append(plural_of(hours).as_str());
        if minutes > 0 {
            r.append(", ");
            r.append(decimal_string(minutes).as_str());
            r.append(" min");
        }
    } else if minutes > 0 {
        r.append(decimal_string(minutes).as_str());
        r.append(" min, ");
        r.append(decimal_string(seconds).as_str());
        r.append(" sec");
    } else {
        r.append(decimal_string(seconds).as_str());
        r.append(" sec");
    }
    assert(r@ =~= duration_text(secs as int));
    r
}

/// The span from one time to another for a reader, or `Unknown` where
/// either is no RFC 3339 time.
pub fn calculate_duration(from_timestamp: &str, to_timestamp: &str) -> (r: String)
    ensures
        r@ == match rfc3339_seconds_between(from_timestamp@, to_timestamp@) {
            Some(secs) => duration_text(secs as int),
            None => "Unknown"@,
        },
{
    match seconds_between(from_timestamp, to_timestamp) {
        Some(secs) => describe_duration(secs),
        None => "Unknown".to_owned(),
    }
}

} // verus!
