//! Humanizes an elapsed duration into its coarsest readable unit.
use vstd::prelude::*;

verus! {

use vstd::string::StringExecFns;
use crate::digits::dec_seq;
use crate::digits::pad2_seq;
use crate::digits::push_dec;
use crate::digits::push_pad2;
use crate::digits::u64_string;

/// The humanized text of a duration of `ns` nanoseconds: the coarsest unit
/// is chosen by exclusive upper bounds, and the value is rendered as
/// `{n}ns`, `{n}µs`, `{n}ms`, `{s}.{remaining_ms}s`, `{min}:{sec}min`,
/// `{h}:{min}:{sec}`, or `{d}d` / `{d}d{h}h` when whole days remain.
pub open spec fn duration_text(ns: nat) -> Seq<char> {
    let us = ns / 1000;
    let ms = ns / 1000000;
    let s = ns / 1000000000;
    if ns < 1000 {
        dec_seq(ns) + "ns"@
    } else if us < 1000 {
        dec_seq(us) + "µs"@
    } else if ms < 1000 {
        dec_seq(ms) + "ms"@
    } else if s < 60 {
        dec_seq(s) + "."@ + dec_seq(ms % 1000) + "s"@
    } else if s < 3600 {
        dec_seq(s / 60) + ":"@ + pad2_seq(s % 60) + "min"@
    } else if s < 86400 {
        dec_seq(s / 3600) + ":"@ + pad2_seq((s % 3600) / 60) + ":"@ + pad2_seq(s % 60)
    } else {
        if (s % 86400) / 3600 > 0 {
            dec_seq(s / 86400) + "d"@ + dec_seq((s % 86400) / 3600) + "h"@
        } else {
            dec_seq(s / 86400) + "d"@
        }
    }
}

/// Renders `ns` nanoseconds in the coarsest readable unit.
pub fn render_duration(ns: u64) -> (r: String)
    ensures
        r@ == duration_text(ns as nat),
{
    let us = ns / 1000;
    let ms = ns / 1000000;
    let s = ns / 1000000000;
    if ns < 1000 {
        let mut out = u64_string(ns);
        out.append("ns");
        out
    } else if us < 1000 {
        let mut out = u64_string(us);
        out.append("µs");
        out
    } else if ms < 1000 {
        let mut out = u64_string(ms);
        out.append("ms");
        out
    } else if s < 60 {
        let mut out = u64_string(s);
        out.append(".");
        push_dec(&mut out, ms % 1000);
        out.append("s");
        out
    } else if s < 3600 {
        let mut out = u64_string(s / 60);
        out.append(":");
        push_pad2(&mut out, s % 60);
        out.append("min");
        out
    } else if s < 86400 {
        let mut out = u64_string(s / 3600);
        out.append(":");
        push_pad2(&mut out, (s % 3600) / 60);
        out.append(":");
        push_pad2(&mut out, s % 60);
        out
    } else {
        let h = (s % 86400) / 3600;
        if h > 0 {
            let mut out = u64_string(s / 86400);
            out.append("d");
            push_dec(&mut out, h);
            out.append("h");
            out
        } else {
            let mut out = u64_string(s / 86400);
            out.append("d");
            out
        }
    }
}

} // verus!
