//! Wall-clock timestamps as plain values, with the two renderings the sinks
//! use: a human-readable stamp with date, time, milliseconds and zone offset,
//! and a compact stamp embedded in the log file's name. Only reading the
//! clock itself is delegated to the outside world.

use vstd::prelude::*;
use crate::num::{dec_spec, pad2_spec, pad3_spec, pad4_spec, push_dec, push_pad2, push_pad3,
    push_pad4};
use chrono::Datelike;
use chrono::Timelike;

verus! {

/// A wall-clock instant with millisecond precision in the process-local
/// timezone, held as plain calendar and clock fields.
#[derive(Clone, Copy, PartialEq, Eq, Structural, Debug)]
pub struct Timestamp {
    pub year: i32,
    /// Month of the year, `1 ..= 12`.
    pub month: u8,
    /// Day of the month, `1 ..= 31`.
    pub day: u8,
    /// Hour of the day, `0 ..= 23`.
    pub hour: u8,
    /// Minute of the hour, `0 ..= 59`.
    pub minute: u8,
    /// Second of the minute, `0 ..= 59`.
    pub second: u8,
    /// Milliseconds since the whole second; `1000 ..= 1999` stands for a
    /// leap second.
    pub milli: u16,
    /// Local offset from UTC in seconds, strictly within one day.
    pub offset_seconds: i32,
}

impl Timestamp {
    /// The documented ranges of each clock field.
    pub open spec fn wf(self) -> bool {
        &&& 1 <= self.month <= 12
        &&& 1 <= self.day <= 31
        &&& self.hour <= 23
        &&& self.minute <= 59
        &&& self.second <= 59
        &&& self.milli <= 1999
        &&& -86400 < self.offset_seconds < 86400
    }
}

/// The rendering of a year: at least four digits, with a leading minus sign
/// for years before the common era.
pub open spec fn year_spec(y: int) -> Seq<char> {
    if y >= 0 {
        pad4_spec(y as nat)
    } else {
        seq!['-'] + pad4_spec((-y) as nat)
    }
}

/// The rendering of a zone offset: a sign, then hours and minutes each as
/// two digits, separated by a colon.
pub open spec fn offset_spec(off: int) -> Seq<char> {
    let a = if off >= 0 {
        off as nat
    } else {
        (-off) as nat
    };
    (if off >= 0 {
        seq!['+']
    } else {
        seq!['-']
    }) + pad2_spec(a / 3600) + seq![':'] + pad2_spec((a % 3600) / 60)
}

/// Milliseconds rendering: three digits, or the plain decimal during a leap
/// second, when the count exceeds three digits.
pub open spec fn milli_spec(m: nat) -> Seq<char> {
    if m < 1000 {
        pad3_spec(m)
    } else {
        dec_spec(m)
    }
}

/// The human-readable stamp of the console and file headers:
/// `YYYY-MM-DD HH:MM:SS.mmm` followed by the zone offset.
pub open spec fn display_stamp_spec(ts: Timestamp) -> Seq<char> {
    year_spec(ts.year as int) + seq!['-'] + pad2_spec(ts.month as nat) + seq!['-'] + pad2_spec(
        ts.day as nat,
    ) + seq![' '] + pad2_spec(ts.hour as nat) + seq![':'] + pad2_spec(ts.minute as nat) + seq![':']
        + pad2_spec(ts.second as nat) + seq!['.'] + milli_spec(ts.milli as nat) + offset_spec(
        ts.offset_seconds as int,
    )
}

/// The compact stamp embedded in the log file's name:
/// `YYYYMMDD-HHMMSSmmm`.
pub open spec fn file_stamp_spec(ts: Timestamp) -> Seq<char> {
    year_spec(ts.year as int) + pad2_spec(ts.month as nat) + pad2_spec(ts.day as nat) + seq!['-']
        + pad2_spec(ts.hour as nat) + pad2_spec(ts.minute as nat) + pad2_spec(ts.second as nat)
        + milli_spec(ts.milli as nat)
}

/// Appends the year of `ts`, sign included.
fn push_year(s: &mut String, year: i32)
    ensures
        final(s)@ == old(s)@ + year_spec(year as int),
{
    if year >= 0 {
        push_pad4(s, year as u64);
    } else {
        proof {
            reveal_strlit("-");
        }
        s.append("-");
        let mag: i64 = -(year as i64);
        push_pad4(s, mag as u64);
        proof {
            assert("-"@ =~= seq!['-']);
            assert(s@ =~= old(s)@ + year_spec(year as int));
        }
    }
}

/// Appends the zone offset of `ts` as `+HH:MM` or `-HH:MM`.
fn push_offset(s: &mut String, off: i32)
    requires
        -86400 < off < 86400,
    ensures
        final(s)@ == old(s)@ + offset_spec(off as int),
{
    proof {
        reveal_strlit("+");
        reveal_strlit("-");
        reveal_strlit(":");
        assert("+"@ =~= seq!['+']);
        assert("-"@ =~= seq!['-']);
        assert(":"@ =~= seq![':']);
    }
    let a: i32 = if off >= 0 {
        s.append("+");
        off
    } else {
        s.append("-");
        -off
    };
    push_pad2(s, (a / 3600) as u64);
    s.append(":");
    push_pad2(s, ((a % 3600) / 60) as u64);
    proof {
        assert(s@ =~= old(s)@ + offset_spec(off as int));
    }
}

/// Renders the human-readable stamp of `ts`.
pub fn display_stamp(ts: &Timestamp) -> (r: String)
    requires
        ts.wf(),
    ensures
        r@ == display_stamp_spec(*ts),
{
    proof {
        reveal_strlit("-");
        reveal_strlit(" ");
        reveal_strlit(":");
        reveal_strlit(".");
        assert("-"@ =~= seq!['-']);
        assert(" "@ =~= seq![' ']);
        assert(":"@ =~= seq![':']);
        assert("."@ =~= seq!['.']);
    }
    let mut s = String::new();
    push_year(&mut s, ts.year);
    s.append("-");
    push_pad2(&mut s, ts.month as u64);
    s.append("-");
    push_pad2(&mut s, ts.day as u64);
    s.append(" ");
    push_pad2(&mut s, ts.hour as u64);
    s.append(":");
    push_pad2(&mut s, ts.minute as u64);
    s.append(":");
    push_pad2(&mut s, ts.second as u64);
    s.append(".");
    if ts.milli < 1000 {
        push_pad3(&mut s, ts.milli as u64);
    } else {
        push_dec(&mut s, ts.milli as u64);
    }
    push_offset(&mut s, ts.offset_seconds);
    proof {
        assert(s@ =~= display_stamp_spec(*ts));
    }
    s
}

/// Renders the compact file-name stamp of `ts`.
pub fn file_stamp(ts: &Timestamp) -> (r: String)
    requires
        ts.wf(),
    ensures
        r@ == file_stamp_spec(*ts),
{
    proof {
        reveal_strlit("-");
        assert("-"@ =~= seq!['-']);
    }
    let mut s = String::new();
    push_year(&mut s, ts.year);
    push_pad2(&mut s, ts.month as u64);
    push_pad2(&mut s, ts.day as u64);
    s.append("-");
    push_pad2(&mut s, ts.hour as u64);
    push_pad2(&mut s, ts.minute as u64);
    push_pad2(&mut s, ts.second as u64);
    if ts.milli < 1000 {
        push_pad3(&mut s, ts.milli as u64);
    } else {
        push_dec(&mut s, ts.milli as u64);
    }
    proof {
        assert(s@ =~= file_stamp_spec(*ts));
    }
    s
}

/// Relies on `chrono::Local::now` and the `Datelike`/`Timelike` accessors
/// and `FixedOffset::local_minus_utc`: the clock fields of the current local
/// time, each within its documented range (month 1 to 12, day 1 to 31, hour
/// below 24, minute and second below 60, milliseconds below 2000 counting
/// leap seconds, offset strictly within one day of seconds).
#[verifier::external_body]
pub(crate) fn now_local() -> (ts: Timestamp)
    ensures
        ts.wf(),
{
    let t = chrono::Local::now();
    Timestamp {
        year: t.year(),
        month: t.month() as u8,
        day: t.day() as u8,
        hour: t.hour() as u8,
        minute: t.minute() as u8,
        second: t.second() as u8,
        milli: t.timestamp_subsec_millis() as u16,
        offset_seconds: t.offset().local_minus_utc(),
    }
}

} // verus!
