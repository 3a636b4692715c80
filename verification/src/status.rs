//! Severity levels and their fixed tag letters and colors.
use vstd::prelude::*;

verus! {

use vstd::string::StringExecFns;

/// Severity of a log record. Each level has a fixed single-letter tag and a
/// fixed ANSI color, pairwise distinct across the five levels.
#[derive(Clone, Copy, PartialEq, Eq, Structural)]
pub enum StatusLevel {
    Okay,
    Info,
    Error,
    Warning,
    Critical,
}

/// The ANSI sequence that returns the terminal to its default color.
pub open spec fn reset_seq() -> Seq<char> {
    "\x1b[0m"@
}

/// The ANSI color assigned to a level.
pub open spec fn color_seq(level: StatusLevel) -> Seq<char> {
    match level {
        StatusLevel::Okay => "\x1b[92m"@,
        StatusLevel::Info => "\x1b[94m"@,
        StatusLevel::Error => "\x1b[91m"@,
        StatusLevel::Warning => "\x1b[93m"@,
        StatusLevel::Critical => "\x1b[31m"@,
    }
}

/// The tag letter assigned to a level.
pub open spec fn tag_seq(level: StatusLevel) -> Seq<char> {
    match level {
        StatusLevel::Okay => "O"@,
        StatusLevel::Info => "I"@,
        StatusLevel::Error => "E"@,
        StatusLevel::Warning => "W"@,
        StatusLevel::Critical => "C"@,
    }
}

/// The severity prefix of a record: the tag letter in the level's color,
/// followed by `&:`, with the color reset afterwards.
pub open spec fn header_seq(level: StatusLevel) -> Seq<char> {
    color_seq(level) + tag_seq(level) + "&:"@ + reset_seq()
}

/// The ANSI reset sequence as text.
pub fn reset_str() -> (r: &'static str)
    ensures
        r@ == reset_seq(),
{
    "\x1b[0m"
}

impl StatusLevel {
    /// The ANSI color in which this level's record text is written.
    pub fn to_color(&self) -> (r: &'static str)
        ensures
            r@ == color_seq(*self),
    {
        match self {
            StatusLevel::Okay => "\x1b[92m",
            StatusLevel::Info => "\x1b[94m",
            StatusLevel::Error => "\x1b[91m",
            StatusLevel::Warning => "\x1b[93m",
            StatusLevel::Critical => "\x1b[31m",
        }
    }

    /// The single tag letter of this level.
    pub fn tag(&self) -> (r: &'static str)
        ensures
            r@ == tag_seq(*self),
    {
        match self {
            StatusLevel::Okay => "O",
            StatusLevel::Info => "I",
            StatusLevel::Error => "E",
            StatusLevel::Warning => "W",
            StatusLevel::Critical => "C",
        }
    }

    /// Renders the severity prefix of a record: colored tag letter, `&:`,
    /// then the color reset.
    pub fn header(&self) -> (r: String)
        ensures
            r@ == header_seq(*self),
    {
        let mut out = String::from_str(self.to_color());
        out.append(self.tag());
        out.append("&:");
        out.append(reset_str());
        out
    }
}

/// Tag letters and colors are fixed by the level alone and are pairwise
/// distinct: two different levels never share a tag letter or a color.
pub proof fn lemma_severity_distinct(a: StatusLevel, b: StatusLevel)
    requires
        a != b,
    ensures
        tag_seq(a) != tag_seq(b),
        color_seq(a) != color_seq(b),
{
    reveal_strlit("O");
    reveal_strlit("I");
    reveal_strlit("E");
    reveal_strlit("W");
    reveal_strlit("C");
    reveal_strlit("\x1b[92m");
    reveal_strlit("\x1b[94m");
    reveal_strlit("\x1b[91m");
    reveal_strlit("\x1b[93m");
    reveal_strlit("\x1b[31m");
    assert(tag_seq(StatusLevel::Okay)[0] == 'O');
    assert(tag_seq(StatusLevel::Info)[0] == 'I');
    assert(tag_seq(StatusLevel::Error)[0] == 'E');
    assert(tag_seq(StatusLevel::Warning)[0] == 'W');
    assert(tag_seq(StatusLevel::Critical)[0] == 'C');
    assert(color_seq(StatusLevel::Okay)[2] == '9' && color_seq(StatusLevel::Okay)[3] == '2');
    assert(color_seq(StatusLevel::Info)[2] == '9' && color_seq(StatusLevel::Info)[3] == '4');
    assert(color_seq(StatusLevel::Error)[2] == '9' && color_seq(StatusLevel::Error)[3] == '1');
    assert(color_seq(StatusLevel::Warning)[2] == '9' && color_seq(StatusLevel::Warning)[3] == '3');
    assert(color_seq(StatusLevel::Critical)[2] == '3' && color_seq(StatusLevel::Critical)[3] == '1');
}

} // verus!
