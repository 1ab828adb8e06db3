use crate::data::processes::ProcessesSnapshot;
use crate::text::{chars_of, text_of};
use crate::widgets::command_cell::{
    after_last_at, after_last_byte, find_byte, first_at, SLASH, SPACE,
};
use vstd::prelude::*;
use vstd::string::StringSliceAdditionalSpecFns;
use vstd::utf8::{
    decode_utf8, encode_utf8, encode_utf8_decode_utf8, encode_utf8_valid_utf8,
    is_char_boundary_iff_not_is_continuation_byte, is_char_boundary_start_end_of_seq,
};

verus! {

/// The three parts of a command line whose binary's name starts `bin_start`
/// bytes and ends `bin_end` bytes from its start: the path up to the name,
/// the name, and the arguments behind the space that follows the name. The
/// path and the arguments are counted off in characters, so the parts are
/// those of the command line's bytes only where each of its characters is
/// one byte long.
pub open spec fn split_parts(cmd: Seq<char>, bin_start: int, bin_end: int) -> (
    Seq<char>,
    Seq<char>,
    Seq<char>,
) {
    let head = decode_utf8(encode_utf8(cmd).subrange(0, bin_end));
    (
        cmd.take(
            if bin_start < cmd.len() {
                bin_start
            } else {
                cmd.len() as int
            },
        ),
        head.skip(
            if bin_start < head.len() {
                bin_start
            } else {
                head.len() as int
            },
        ),
        cmd.skip(
            if bin_end < cmd.len() {
                bin_end + 1
            } else {
                cmd.len() as int
            },
        ),
    )
}

/// The process table in its plain form, without a filter.
pub struct TableOfProcessesWidget<'a> {
    data: &'a ProcessesSnapshot,
}

impl<'a> TableOfProcessesWidget<'a> {
    /// The process list that the table shows.
    pub closed spec fn data(&self) -> &ProcessesSnapshot {
        self.data
    }

    pub fn new(data: &'a ProcessesSnapshot) -> (widget: TableOfProcessesWidget<'a>)
        ensures
            widget.data() == data,
    {
        TableOfProcessesWidget { data }
    }

    /// Splits a command line into three parts: the path to the binary, the
    /// binary's name, and the arguments. The name starts behind the last
    /// slash of the command line and ends before its first space, so
    /// `/usr/bin/env --help` gives `/usr/bin/`, `env` and `--help`.
    pub fn split_command(cmd: &str) -> (parts: (String, String, String))
        ensures
            exists|bin_start: int, bin_end: int|
                {
                    &&& after_last_at(encode_utf8(cmd@), SLASH, bin_start)
                    &&& first_at(encode_utf8(cmd@), SPACE, bin_end)
                    &&& (parts.0@, parts.1@, parts.2@) == split_parts(cmd@, bin_start, bin_end)
                },
    {
        let bytes = cmd.as_bytes();
        let bin_start: usize = after_last_byte(bytes, SLASH);
        let bin_end: usize = find_byte(bytes, SPACE);
        proof {
            encode_utf8_valid_utf8(cmd@);
            if bin_end < bytes@.len() {
                is_char_boundary_iff_not_is_continuation_byte(bytes@, bin_end as int);
            } else {
                is_char_boundary_start_end_of_seq(bytes@);
            }
        }
        let (head, _) = cmd.split_at(bin_end);
        proof {
            encode_utf8_decode_utf8(head@);
            assert(head.spec_bytes() == bytes@.subrange(0, bin_end as int));
        }
        let chars = chars_of(cmd);
        let head_chars = chars_of(head);
        let path_end: usize = if bin_start < chars.len() {
            bin_start
        } else {
            chars.len()
        };
        let name_start: usize = if bin_start < head_chars.len() {
            bin_start
        } else {
            head_chars.len()
        };
        let args_start: usize = if bin_end < chars.len() {
            bin_end + 1
        } else {
            chars.len()
        };
        let path = text_of(&chars, 0, path_end);
        let name = text_of(&head_chars, name_start, head_chars.len());
        let args = text_of(&chars, args_start, chars.len());
        assert((path@, name@, args@) == split_parts(cmd@, bin_start as int, bin_end as int));
        (path, name, args)
    }
}

} // verus!
