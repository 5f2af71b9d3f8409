//! Durations and time stamps as text.

use std::time::Duration;
use chrono::{Datelike, Local, Timelike};
use vstd::prelude::*;
use vstd::string::*;
use crate::decimal::{padded2, push_padded2, push_signed, signed_decimal};

verus! {

/// A reading of a wall clock, broken into its calendar fields.
#[derive(Debug, Clone, Copy, PartialEq, Eq, Structural)]
pub struct CivilTime {
    pub year: i32,
    pub month: u32,
    pub day: u32,
    pub hour: u32,
    pub minute: u32,
    pub second: u32,
}

impl CivilTime {
    /// Every field inside the range of its calendar unit.
    pub open spec fn in_range(&self) -> bool {
        &&& 1 <= self.month <= 12
        &&& 1 <= self.day <= 31
        &&& self.hour <= 23
        &&& self.minute <= 59
        &&& self.second <= 59
    }
}

/// A duration as text: `MM:SS` below one hour, `HH:MM:SS` from there on.
pub open spec fn hms_dur_text(secs: nat) -> Seq<char> {
    if secs / 3600 > 0 {
        padded2(secs / 3600) + seq![':'] + padded2((secs % 3600) / 60) + seq![':'] + padded2(
            secs % 60,
        )
    } else {
        padded2((secs % 3600) / 60) + seq![':'] + padded2(secs % 60)
    }
}

/// The stamp `YYYYMMDD_HHMMSS` of a clock reading: the year as it is, every
/// other field with at least two digits.
pub open spec fn stamp_text(t: CivilTime) -> Seq<char> {
    signed_decimal(t.year as int) + padded2(t.month as nat) + padded2(t.day as nat) + seq!['_']
        + padded2(t.hour as nat) + padded2(t.minute as nat) + padded2(t.second as nat)
}

/// The playing time of `samples` interleaved samples in whole seconds.
pub open spec fn content_seconds(samples: nat, sample_rate: nat, channels: nat) -> nat {
    samples / (sample_rate * channels)
}

/// The whole seconds that a `Duration` holds.
pub uninterp spec fn whole_seconds(d: Duration) -> u64;

/// `Duration::as_secs` of std: the number of whole seconds in the duration,
/// which is taken here as what `whole_seconds` names.
#[verifier::external_body]
fn duration_secs(d: &Duration) -> (secs: u64)
    ensures
        secs == whole_seconds(*d),
{
    d.as_secs()
}

/// `chrono::Local::now`, read through chrono's `Datelike` and `Timelike`: the
/// fields of the current local time. Claimed are only the ranges that chrono
/// documents for the fields: months from 1 to 12, days from 1 to 31, hours
/// from 0 to 23, minutes and seconds from 0 to 59. Nothing is claimed of the
/// year, nor of two readings against each other. chrono gives up on a system
/// clock that is set before 1970; such a machine is not provided for.
#[verifier::external_body]
fn local_now() -> (t: CivilTime)
    ensures
        t.in_range(),
{
    let now = Local::now();
    CivilTime {
        year: now.year(),
        month: now.month(),
        day: now.day(),
        hour: now.hour(),
        minute: now.minute(),
        second: now.second(),
    }
}

/// Renders a number of whole seconds as a duration.
pub fn fmt_hms_secs(secs: u64) -> (text: String)
    ensures
        text@ == hms_dur_text(secs as nat),
{
    let h = secs / 3600;
    let m = (secs % 3600) / 60;
    let s = secs % 60;
    let mut out = String::new();
    proof {
        reveal_strlit(":");
    }
    if h > 0 {
        push_padded2(&mut out, h);
        out.append(":");
    }
    push_padded2(&mut out, m);
    out.append(":");
    push_padded2(&mut out, s);
    assert(out@ =~= hms_dur_text(secs as nat));
    out
}

/// Renders the whole seconds of a duration.
pub fn fmt_hms_dur(d: Duration) -> (text: String)
    ensures
        text@ == hms_dur_text(whole_seconds(d) as nat),
{
    let secs = duration_secs(&d);
    fmt_hms_secs(secs)
}

/// Position and length of a recording as durations, from interleaved sample
/// counts; both read `00:00` when the rate or the channel count is zero.
pub fn content_time_fmt(pos_samples: usize, total_samples: usize, sr: u32, ch: u16) -> (texts: (
    String,
    String,
))
    ensures
        sr == 0 || ch == 0 ==> texts.0@ == hms_dur_text(0) && texts.1@ == hms_dur_text(0),
        sr != 0 && ch != 0 ==> texts.0@ == hms_dur_text(
            content_seconds(pos_samples as nat, sr as nat, ch as nat),
        ) && texts.1@ == hms_dur_text(content_seconds(total_samples as nat, sr as nat, ch as nat)),
{
    if sr == 0 || ch == 0 {
        return (fmt_hms_secs(0), fmt_hms_secs(0));
    }
    assert(0 < sr as nat * ch as nat <= 0xffff_ffff * 0xffff) by (nonlinear_arith)
        requires
            0 < sr <= 0xffff_ffff,
            0 < ch <= 0xffff,
    ;
    let per_second: u64 = (sr as u64) * (ch as u64);
    let pos = (pos_samples as u64) / per_second;
    let tot = (total_samples as u64) / per_second;
    (fmt_hms_secs(pos), fmt_hms_secs(tot))
}

/// Renders a clock reading as `YYYYMMDD_HHMMSS`.
pub fn stamp_ymdhms(t: CivilTime) -> (text: String)
    ensures
        text@ == stamp_text(t),
{
    let mut out = String::new();
    push_signed(&mut out, t.year);
    push_padded2(&mut out, t.month as u64);
    push_padded2(&mut out, t.day as u64);
    proof {
        reveal_strlit("_");
    }
    out.append("_");
    push_padded2(&mut out, t.hour as u64);
    push_padded2(&mut out, t.minute as u64);
    push_padded2(&mut out, t.second as u64);
    assert(out@ =~= stamp_text(t));
    out
}

/// The current local time, field by field.
pub fn local_time() -> (t: CivilTime)
    ensures
        t.in_range(),
{
    local_now()
}

/// The stamp of the current local time. Which reading the clock gives is not
/// known; the text is the stamp of some reading with every field in range.
pub fn now_stamp_ymdhms() -> (text: String)
    ensures
        exists|t: CivilTime| t.in_range() && text@ == stamp_text(t),
{
    let t = local_now();
    stamp_ymdhms(t)
}

} // verus!
