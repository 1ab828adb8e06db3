use crate::text::{contains_run, find_run, first_run_at};
use vstd::prelude::*;
use vstd::utf8::encode_utf8;

verus! {

/// The byte that parts the directories of a path.
pub const SLASH: u8 = 47;

/// The byte that parts the words of a command line.
pub const SPACE: u8 = 32;

/// Whether `i` is where the first `b` of `s` stands; the length of `s` where
/// it has none.
pub open spec fn first_at(s: Seq<u8>, b: u8, i: int) -> bool {
    &&& 0 <= i <= s.len()
    &&& i < s.len() ==> s[i] == b
    &&& forall|j: int| 0 <= j < i ==> s[j] != b
}

/// Whether `i` is the place just behind the last `b` of `s`; zero where it
/// has none.
pub open spec fn after_last_at(s: Seq<u8>, b: u8, i: int) -> bool {
    &&& 0 <= i <= s.len()
    &&& i > 0 ==> s[i - 1] == b
    &&& forall|j: int| i <= j < s.len() ==> s[j] != b
}

/// Where a command line is cut for display, in bytes from its start: the
/// name of the binary runs from `bin_start` to `bin_end`, the text that the
/// filter found from `match_start` to `match_end`.
#[derive(Clone, Copy, Debug, PartialEq, Eq)]
pub struct CommandCuts {
    pub bin_start: usize,
    pub bin_end: usize,
    pub match_start: usize,
    pub match_end: usize,
}

impl CommandCuts {
    /// Whether these are the cuts of the command line `cmd` under the filter
    /// text `filter_by`, both as bytes. The binary's name starts behind the
    /// last slash and ends before the first space. The match is the first
    /// place the filter text stands at; it is empty where there is no filter
    /// or the text is not found.
    pub open spec fn cuts_of(self, cmd: Seq<u8>, filter_by: Option<Seq<u8>>) -> bool {
        &&& after_last_at(cmd, SLASH, self.bin_start as int)
        &&& first_at(cmd, SPACE, self.bin_end as int)
        &&& match filter_by {
            Some(needle) => if contains_run(cmd, needle) {
                &&& first_run_at(cmd, needle, self.match_start as int)
                &&& self.match_end == self.match_start + needle.len()
            } else {
                self.match_start == 0 && self.match_end == 0
            },
            None => self.match_start == 0 && self.match_end == 0,
        }
    }

    /// Whether `c` is one of the places at which a command line of `len`
    /// bytes is cut.
    pub open spec fn is_cut(self, len: int, c: int) -> bool {
        ||| c == 0
        ||| c == self.bin_start
        ||| c == self.bin_end
        ||| c == self.match_start
        ||| c == self.match_end
        ||| c == len
    }
}

/// One stretch of a command line, from `start` up to `end` in bytes, with
/// what it is part of.
#[derive(Clone, Copy, Debug, PartialEq, Eq)]
pub struct Segment {
    pub start: usize,
    pub end: usize,
    pub is_bin: bool,
    pub is_match: bool,
}

/// Whether `segments` are the stretches that the cuts part a command line of
/// `len` bytes into: they follow one another without gap from the start to
/// the end, none is empty, each ends at a cut and has no cut inside, and each
/// says whether it lies in the binary's name and whether in the match.
pub open spec fn segments_of(segments: Seq<Segment>, cuts: CommandCuts, len: int) -> bool {
    &&& len == 0 ==> segments.len() == 0
    &&& len > 0 ==> segments.len() > 0 && segments[0].start == 0 && segments.last().end == len
    &&& forall|i: int| 0 <= i < segments.len() ==> (#[trigger] segments[i]).start < segments[i].end
    &&& forall|i: int|
        0 <= i < segments.len() - 1 ==> (#[trigger] segments[i]).end == segments[i + 1].start
    &&& forall|i: int|
        0 <= i < segments.len() ==> cuts.is_cut(len, (#[trigger] segments[i]).end as int)
    &&& forall|i: int, c: int|
        #![trigger segments[i], cuts.is_cut(len, c)]
        0 <= i < segments.len() && cuts.is_cut(len, c) ==> !(segments[i].start < c
            < segments[i].end)
    &&& forall|i: int|
        0 <= i < segments.len() ==> (#[trigger] segments[i]).is_bin == (segments[i].start
            < cuts.bin_end && segments[i].end > cuts.bin_start)
    &&& forall|i: int|
        0 <= i < segments.len() ==> (#[trigger] segments[i]).is_match == (segments[i].start
            < cuts.match_end && segments[i].end > cuts.match_start)
}

/// Where the first `b` of `s` stands; the length of `s` where it has none.
pub fn find_byte(s: &[u8], b: u8) -> (i: usize)
    ensures
        first_at(s@, b, i as int),
{
    let mut i: usize = 0;
    while i < s.len()
        invariant
            i <= s@.len(),
            forall|j: int| 0 <= j < i ==> s@[j] != b,
        decreases s@.len() - i,
    {
        if s[i] == b {
            return i;
        }
        i += 1;
    }
    i
}

/// The place just behind the last `b` of `s`; zero where it has none.
pub fn after_last_byte(s: &[u8], b: u8) -> (i: usize)
    ensures
        after_last_at(s@, b, i as int),
{
    let mut i: usize = s.len();
    while i > 0
        invariant
            i <= s@.len(),
            forall|j: int| i <= j < s@.len() ==> s@[j] != b,
        decreases i,
    {
        if s[i - 1] == b {
            return i;
        }
        i -= 1;
    }
    i
}

/// Finds where a command line is cut for display.
pub fn command_cuts(cmd: &str, filter_by: Option<&str>) -> (cuts: CommandCuts)
    ensures
        cuts.cuts_of(
            encode_utf8(cmd@),
            match filter_by {
                Some(text) => Some(encode_utf8(text@)),
                None => None,
            },
        ),
        cuts.bin_start <= encode_utf8(cmd@).len(),
        cuts.bin_end <= encode_utf8(cmd@).len(),
        cuts.match_start <= cuts.match_end <= encode_utf8(cmd@).len(),
{
    let bytes = cmd.as_bytes();
    let bin_start = after_last_byte(bytes, SLASH);
    let bin_end = find_byte(bytes, SPACE);
    let (match_start, match_end) = match filter_by {
        Some(text) => {
            let needle = text.as_bytes();
            match find_run(bytes, needle) {
                Some(at) => (at, at + needle.len()),
                None => (0, 0),
            }
        },
        None => (0, 0),
    };
    CommandCuts { bin_start, bin_end, match_start, match_end }
}

/// The nearer to `pos` of `best` and `c`, among those of the two that lie
/// beyond `pos`.
fn nearer(pos: usize, c: usize, best: usize) -> (next: usize)
    requires
        pos < best,
    ensures
        pos < next <= best,
        next == best || next == c,
        pos < c ==> next <= c,
{
    if c > pos && c < best {
        c
    } else {
        best
    }
}

/// Parts a command line of `len` bytes at its cuts.
pub fn cut_segments(cuts: &CommandCuts, len: usize) -> (segments: Vec<Segment>)
    ensures
        segments_of(segments@, *cuts, len as int),
{
    let mut segments: Vec<Segment> = Vec::new();
    let mut pos: usize = 0;
    while pos < len
        invariant
            pos <= len,
            cuts.is_cut(len as int, pos as int),
            pos == 0 <==> segments@.len() == 0,
            pos > 0 ==> segments@[0].start == 0 && segments@.last().end == pos,
            forall|i: int|
                0 <= i < segments@.len() ==> (#[trigger] segments@[i]).start < segments@[i].end,
            forall|i: int|
                0 <= i < segments@.len() - 1 ==> (#[trigger] segments@[i]).end == segments@[i
                    + 1].start,
            forall|i: int|
                0 <= i < segments@.len() ==> cuts.is_cut(
                    len as int,
                    (#[trigger] segments@[i]).end as int,
                ),
            forall|i: int, c: int|
                #![trigger segments@[i], cuts.is_cut(len as int, c)]
                0 <= i < segments@.len() && cuts.is_cut(len as int, c) ==> !(segments@[i].start
                    < c < segments@[i].end),
            forall|i: int|
                0 <= i < segments@.len() ==> (#[trigger] segments@[i]).is_bin == (
                segments@[i].start < cuts.bin_end && segments@[i].end > cuts.bin_start),
            forall|i: int|
                0 <= i < segments@.len() ==> (#[trigger] segments@[i]).is_match == (
                segments@[i].start < cuts.match_end && segments@[i].end > cuts.match_start),
        decreases len - pos,
    {
        let mut next: usize = len;
        next = nearer(pos, cuts.bin_start, next);
        next = nearer(pos, cuts.bin_end, next);
        next = nearer(pos, cuts.match_start, next);
        next = nearer(pos, cuts.match_end, next);
        let ghost before = segments@;
        segments.push(
            Segment {
                start: pos,
                end: next,
                is_bin: pos < cuts.bin_end && next > cuts.bin_start,
                is_match: pos < cuts.match_end && next > cuts.match_start,
            },
        );
        proof {
            assert(forall|i: int| 0 <= i < before.len() ==> segments@[i] == before[i]);
        }
        pos = next;
    }
    segments
}

/// The stretches a command line is shown in, so that the binary's name and
/// the text that the filter found can be set off.
pub fn create_cmd_cell(cmd: &str, filter_by: Option<&str>) -> (segments: Vec<Segment>)
    ensures
        exists|cuts: CommandCuts|
            {
                &&& cuts.cuts_of(
                    encode_utf8(cmd@),
                    match filter_by {
                        Some(text) => Some(encode_utf8(text@)),
                        None => None,
                    },
                )
                &&& segments_of(segments@, cuts, encode_utf8(cmd@).len() as int)
            },
{
    let cuts = command_cuts(cmd, filter_by);
    cut_segments(&cuts, cmd.as_bytes().len())
}

} // verus!
