//! Audit log entries.
//!
//! The service is killed by a signal on application exit and cannot
//! write its own shutdown log line, so the supervisor appends one on
//! its behalf: local time, level, and a message naming the terminated
//! process identifier.  This module formats that entry; appending it
//! to the log file is filesystem work done by the surrounding
//! application.

use crate::digits::{dec_spec, pad2, pad2_spec, pad3, pad3_spec, pad4, pad4_spec, u32_to_string};
use chrono::{Datelike, Timelike};
use vstd::prelude::*;

verus! {

/// A local wall-clock timestamp, split into calendar fields.
#[derive(Clone, Copy, Debug, PartialEq, Eq, Structural)]
pub struct Timestamp {
    pub year: u32,
    pub month: u32,
    pub day: u32,
    pub hour: u32,
    pub minute: u32,
    pub second: u32,
    pub millisecond: u32,
}

impl Timestamp {
    /// The field ranges of a calendar timestamp as this module
    /// formats it: four digits of year, three of milliseconds.
    pub open spec fn valid(self) -> bool {
        &&& self.year <= 9999
        &&& 1 <= self.month <= 12
        &&& 1 <= self.day <= 31
        &&& self.hour <= 23
        &&& self.minute <= 59
        &&& self.second <= 59
        &&& self.millisecond <= 999
    }
}

/// `ts` in the audit log's timestamp shape, `YYYY-MM-DD HH:MM:SS,mmm`
/// (fields wider than their pad keep all their digits).
pub open spec fn timestamp_spec(ts: Timestamp) -> Seq<char> {
    pad4_spec(ts.year as nat) + seq!['-'] + pad2_spec(ts.month as nat) + seq!['-'] + pad2_spec(
        ts.day as nat,
    ) + seq![' '] + pad2_spec(ts.hour as nat) + seq![':'] + pad2_spec(ts.minute as nat)
        + seq![':'] + pad2_spec(ts.second as nat) + seq![','] + pad3_spec(ts.millisecond as nat)
}

/// The audit entry recording that the supervisor stopped the service
/// with identifier `pid`, line break included.
pub open spec fn termination_entry_spec(ts: Timestamp, pid: u32) -> Seq<char> {
    timestamp_spec(ts) + " - INFO - Server stopped by closing the application | PID: "@ + dec_spec(
        pid as nat,
    ) + seq!['\n']
}

/// Formats `ts` as `YYYY-MM-DD HH:MM:SS,mmm`.
pub fn format_timestamp(ts: Timestamp) -> (s: String)
    ensures
        s@ == timestamp_spec(ts),
{
    proof {
        reveal_strlit("-");
        reveal_strlit(" ");
        reveal_strlit(":");
        reveal_strlit(",");
    }
    let mut s = pad4(ts.year);
    s.append("-");
    let part = pad2(ts.month);
    s.append(part.as_str());
    s.append("-");
    let part = pad2(ts.day);
    s.append(part.as_str());
    s.append(" ");
    let part = pad2(ts.hour);
    s.append(part.as_str());
    s.append(":");
    let part = pad2(ts.minute);
    s.append(part.as_str());
    s.append(":");
    let part = pad2(ts.second);
    s.append(part.as_str());
    s.append(",");
    let part = pad3(ts.millisecond);
    s.append(part.as_str());
    proof {
        assert(s@ =~= timestamp_spec(ts));
    }
    s
}

/// Builds the audit entry for the termination of `pid` at local time
/// `ts`.
pub fn termination_entry(ts: Timestamp, pid: u32) -> (s: String)
    ensures
        s@ == termination_entry_spec(ts, pid),
{
    proof {
        reveal_strlit("\n");
    }
    let mut s = format_timestamp(ts);
    s.append(" - INFO - Server stopped by closing the application | PID: ");
    let p = u32_to_string(pid);
    s.append(p.as_str());
    s.append("\n");
    proof {
        assert(s@ =~= termination_entry_spec(ts, pid));
    }
    s
}

/// Relies on chrono's `Local::now` to read the system clock, and on
/// its `Datelike` and `Timelike` accessors and
/// `timestamp_subsec_millis` to take the value apart.  chrono
/// documents the month in 1..=12, the day in 1..=31, the hour in
/// 0..=23, and the minute and second in 0..=59; the year is an
/// arbitrary `i32`, and the millisecond count may exceed 999 during a
/// leap second, so nothing is promised of those.
#[verifier::external_body]
fn now_parts() -> (r: (i32, u32, u32, u32, u32, u32, u32))
    ensures
        1 <= r.1 <= 12,
        1 <= r.2 <= 31,
        r.3 <= 23,
        r.4 <= 59,
        r.5 <= 59,
{
    let now = chrono::Local::now();
    (
        now.year(),
        now.month(),
        now.day(),
        now.hour(),
        now.minute(),
        now.second(),
        now.timestamp_subsec_millis(),
    )
}

/// The current local time.  The year is clamped into four digits and
/// the millisecond count into three (chrono may report a year outside
/// 0..=9999 and, during a leap second, a millisecond count past 999).
pub fn current_timestamp() -> (ts: Timestamp)
    ensures
        ts.valid(),
{
    let (year, month, day, hour, minute, second, millisecond) = now_parts();
    let clamped_year: u32 = if year < 0 {
        0
    } else if year > 9999 {
        9999
    } else {
        year as u32
    };
    let clamped_ms: u32 = if millisecond > 999 {
        999
    } else {
        millisecond
    };
    Timestamp {
        year: clamped_year,
        month,
        day,
        hour,
        minute,
        second,
        millisecond: clamped_ms,
    }
}

} // verus!
