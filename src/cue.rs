use vstd::prelude::*;

use crate::text::{decimal_u64, parse_u64, split_on, split_str, views};

verus! {

/// A timed subtitle: shown from `start` (inclusive) to `end` (exclusive),
/// both in milliseconds, with its text lines from top to bottom.
pub struct Cue {
    pub start: u64,
    pub end: u64,
    pub lines: Vec<String>,
}

impl Cue {
    /// The cue's window as a pair, which also identifies its rendering.
    pub open spec fn key(self) -> (u64, u64) {
        (self.start, self.end)
    }

    /// Whether the cue's window holds the instant `now`.
    pub open spec fn covers(self, now: u64) -> bool {
        self.start <= now < self.end
    }

    /// The cue's window: start and end in milliseconds.
    pub fn window(&self) -> (r: (u64, u64))
        ensures
            r == self.key(),
    {
        (self.start, self.end)
    }
}

/// The separator between a line's fields.
pub open spec fn tab() -> Seq<char> {
    seq!['\t']
}

/// The separator between a cue's text lines.
pub open spec fn line_break() -> Seq<char> {
    seq![' ', ' ', ' ']
}

/// What a line of input holds: start, end and the text's lines, when the line
/// has at least three tab-separated fields and the first two are numbers.
/// Fields after the third are ignored.
pub open spec fn cue_fields(line: Seq<char>) -> Option<(u64, u64, Seq<Seq<char>>)> {
    let parts = split_on(line, tab());
    if parts.len() < 3 {
        None
    } else {
        match (decimal_u64(parts[0]), decimal_u64(parts[1])) {
            (Some(start), Some(end)) => Some((start, end, split_on(parts[2], line_break()))),
            _ => None,
        }
    }
}

/// Reads one line of input as a cue: `start<TAB>end<TAB>text`, where the text
/// is cut into lines at each run of three spaces. `None` marks a malformed
/// line.
pub fn parse_line(line: &str) -> (r: Option<Cue>)
    ensures
        r.is_some() == cue_fields(line@).is_some(),
        r.is_some() ==> cue_fields(line@) == Some(
            (r->0.start, r->0.end, views(r->0.lines@)),
        ),
{
    proof {
        reveal_strlit("\t");
        reveal_strlit("   ");
    }
    assert("\t"@ =~= tab());
    assert("   "@ =~= line_break());
    let parts = split_str(line, "\t");
    assert(views(parts@).len() == parts@.len());
    if parts.len() < 3 {
        return None;
    }
    assert(views(parts@)[0] == parts@[0]@);
    assert(views(parts@)[1] == parts@[1]@);
    assert(views(parts@)[2] == parts@[2]@);
    let start = match parse_u64(parts[0].as_str()) {
        Some(v) => v,
        None => return None,
    };
    let end = match parse_u64(parts[1].as_str()) {
        Some(v) => v,
        None => return None,
    };
    let lines = split_str(parts[2].as_str(), "   ");
    Some(Cue { start, end, lines })
}

} // verus!
