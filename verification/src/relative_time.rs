//! How long ago a time was, in words.

use crate::text::{decimal, push_decimal};
use vstd::prelude::*;
use vstd::string::*;

verus! {

/// A count with its unit, in words, as in "1 minute ago" and "5 minutes ago".
pub open spec fn counted(n: nat, unit: Seq<char>) -> Seq<char> {
    decimal(n) + " "@ + unit + (if n == 1 {
        ""@
    } else {
        "s"@
    }) + " ago"@
}

/// The seconds from `timestamp` to `now`; none if `timestamp` is the later.
pub open spec fn elapsed(now: u64, timestamp: u64) -> nat {
    if now >= timestamp {
        (now - timestamp) as nat
    } else {
        0
    }
}

/// How long before `now` the time `timestamp` was, in words: in whole
/// minutes below an hour, in whole hours below a day, else in whole days.
pub open spec fn time_ago(now: u64, timestamp: u64) -> Seq<char> {
    let d = elapsed(now, timestamp);
    if d < 30 {
        "Just now"@
    } else if d < 3600 {
        counted(d / 60, "minute"@)
    } else if d < 86400 {
        counted(d / 3600, "hour"@)
    } else {
        counted(d / 86400, "day"@)
    }
}

/// Writes a count with its unit.
fn write_counted(n: u64, unit: &str) -> (r: String)
    ensures
        r@ == counted(n as nat, unit@),
{
    let mut out = String::new();
    push_decimal(&mut out, n);
    out.append(" ");
    out.append(unit);
    if n == 1 {
        out.append("");
    } else {
        out.append("s");
    }
    out.append(" ago");
    assert(out@ =~= counted(n as nat, unit@));
    out
}

/// Says how long before `now` the time `timestamp` was. Both are in seconds
/// since the Unix epoch.
pub fn format_timestamp(now: u64, timestamp: u64) -> (r: String)
    ensures
        r@ == time_ago(now, timestamp),
{
    let diff = if now >= timestamp {
        now - timestamp
    } else {
        0
    };
    if diff < 30 {
        String::from_str("Just now")
    } else if diff < 3600 {
        write_counted(diff / 60, "minute")
    } else if diff < 86400 {
        write_counted(diff / 3600, "hour")
    } else {
        write_counted(diff / 86400, "day")
    }
}

} // verus!
