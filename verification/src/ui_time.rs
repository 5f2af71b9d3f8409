//! The clock readout shown beside the progress bar.

use vstd::prelude::*;
use vstd::string::*;
use crate::decimal::{padded2, push_padded2};

verus! {

/// `MM:SS` for a number of seconds; the minutes are not wrapped at the hour.
pub open spec fn ms_text(secs: nat) -> Seq<char> {
    padded2(secs / 60) + seq![':'] + padded2(secs % 60)
}

/// `HH:MM:SS` for a number of seconds.
pub open spec fn hms_text(secs: nat) -> Seq<char> {
    padded2(secs / 3600) + seq![':'] + padded2((secs % 3600) / 60) + seq![':'] + padded2(
        secs % 60,
    )
}

/// The readout `position / total`: both sides carry hours as soon as the
/// total reaches one hour, and neither does before.
pub open spec fn clock_text(content_secs: nat, total_secs: nat) -> Seq<char> {
    if total_secs >= 3600 {
        hms_text(content_secs) + seq![' ', '/', ' '] + hms_text(total_secs)
    } else {
        ms_text(content_secs) + seq![' ', '/', ' '] + ms_text(total_secs)
    }
}

fn push_ms(out: &mut String, secs: u64)
    ensures
        final(out)@ == old(out)@ + ms_text(secs as nat),
{
    push_padded2(out, secs / 60);
    proof {
        reveal_strlit(":");
    }
    out.append(":");
    push_padded2(out, secs % 60);
    assert(final(out)@ =~= old(out)@ + ms_text(secs as nat));
}

fn push_hms(out: &mut String, secs: u64)
    ensures
        final(out)@ == old(out)@ + hms_text(secs as nat),
{
    push_padded2(out, secs / 3600);
    proof {
        reveal_strlit(":");
    }
    out.append(":");
    push_padded2(out, (secs % 3600) / 60);
    out.append(":");
    push_padded2(out, secs % 60);
    assert(final(out)@ =~= old(out)@ + hms_text(secs as nat));
}

/// Renders seconds as `MM:SS`.
pub fn fmt_ms(secs: u64) -> (text: String)
    ensures
        text@ == ms_text(secs as nat),
{
    let mut out = String::new();
    push_ms(&mut out, secs);
    assert(out@ =~= ms_text(secs as nat));
    out
}

/// Renders seconds as `HH:MM:SS`.
pub fn fmt_hms(secs: u64) -> (text: String)
    ensures
        text@ == hms_text(secs as nat),
{
    let mut out = String::new();
    push_hms(&mut out, secs);
    assert(out@ =~= hms_text(secs as nat));
    out
}

/// Renders the playback position against the total length.
pub fn format_clock(content_secs: u64, total_secs: u64) -> (text: String)
    ensures
        text@ == clock_text(content_secs as nat, total_secs as nat),
{
    let mut out = String::new();
    proof {
        reveal_strlit(" / ");
    }
    if total_secs >= 3600 {
        push_hms(&mut out, content_secs);
        out.append(" / ");
        push_hms(&mut out, total_secs);
    } else {
        push_ms(&mut out, content_secs);
        out.append(" / ");
        push_ms(&mut out, total_secs);
    }
    assert(" / "@ =~= seq![' ', '/', ' ']);
    assert(out@ =~= clock_text(content_secs as nat, total_secs as nat));
    out
}

} // verus!
