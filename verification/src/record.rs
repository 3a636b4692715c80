//! The record-formatting pipeline: one logical log entry as joined text or
//! as an ordered group of discrete fragments.
use vstd::prelude::*;

verus! {

use vstd::string::StringExecFns;
use crate::duration::duration_text;
use crate::status::StatusLevel;
use crate::status::color_seq;
use crate::status::header_seq;
use crate::status::reset_seq;
use crate::status::reset_str;

/// The full text of one record: severity prefix, elapsed text, a space,
/// then the message in the level's color, the color reset, and a newline.
pub open spec fn record_seq(level: StatusLevel, elapsed: Seq<char>, msg: Seq<char>) -> Seq<char> {
    header_seq(level) + elapsed + " "@ + color_seq(level) + msg + reset_seq() + "\n"@
}

/// Renders one record as a single joined string.
pub fn render_record(level: StatusLevel, elapsed: &str, msg: &str) -> (r: String)
    ensures
        r@ == record_seq(level, elapsed@, msg@),
{
    let mut out = level.header();
    out.append(elapsed);
    out.append(" ");
    out.append(level.to_color());
    out.append(msg);
    out.append(reset_str());
    out.append("\n");
    out
}

/// A record always carries its message verbatim: the message text stands
/// unchanged in the record, directly after the severity prefix, the
/// elapsed text, the separating space and the color start.
pub proof fn lemma_record_contains_message(level: StatusLevel, elapsed: Seq<char>, msg: Seq<char>)
    ensures
        ({
            let start = header_seq(level).len() + elapsed.len() + 1 + color_seq(level).len();
            record_seq(level, elapsed, msg).subrange(
                start as int,
                start as int + msg.len() as int,
            ) == msg
        }),
{
    reveal_strlit(" ");
    let start = header_seq(level).len() + elapsed.len() + 1 + color_seq(level).len();
    assert(record_seq(level, elapsed, msg).subrange(
        start as int,
        start as int + msg.len() as int,
    ) =~= msg);
}

/// One record in compact rendering: the same content as `record_seq`, as
/// six discrete fragments in order — severity prefix, humanized elapsed
/// time, color start, message, color reset, newline — each tagged with the
/// record's severity.
pub open spec fn fragment_group(level: StatusLevel, elapsed_ns: u64, msg: Seq<char>) -> Seq<
    (StatusLevel, Seq<char>),
> {
    seq![
        (level, header_seq(level)),
        (level, duration_text(elapsed_ns as nat)),
        (level, color_seq(level)),
        (level, msg),
        (level, reset_seq()),
        (level, "\n"@),
    ]
}

} // verus!
