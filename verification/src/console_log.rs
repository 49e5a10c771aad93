//! The console error tail: of the line-delimited JSON records that the
//! user interface appends to its console log, the messages of those at
//! error level, in file order.

use vstd::prelude::*;
use crate::json::{parse_document, parsed_string_members, string_member};
use crate::text::{chars_of, find_char, find_from, string_of_range};

verus! {

/// The message carried by a record with the given `level` and `message`
/// members: the message of a record at error level, nothing otherwise.
pub open spec fn message_if_error(level: Option<Seq<char>>, message: Option<Seq<char>>) -> Option<
    Seq<char>,
> {
    if level == Some("error"@) {
        message
    } else {
        None
    }
}

/// The member `key` of `members`, if there is one.
pub open spec fn member(members: Map<Seq<char>, Seq<char>>, key: Seq<char>) -> Option<Seq<char>> {
    if members.contains_key(key) {
        Some(members[key])
    } else {
        None
    }
}

/// The error message that one line of the log contributes: the `message`
/// of a line that parses as a JSON object whose `level` is the string
/// `error` and whose `message` is a string. Every other line, malformed or
/// at another level, contributes nothing.
pub open spec fn error_message(line: Seq<char>) -> Option<Seq<char>> {
    match parsed_string_members(line) {
        Some(members) => message_if_error(member(members, "level"@), member(members, "message"@)),
        None => None,
    }
}

/// The error messages of `lines`, in order.
pub open spec fn error_messages(lines: Seq<Seq<char>>) -> Seq<Seq<char>>
    decreases lines.len(),
{
    if lines.len() == 0 {
        Seq::empty()
    } else {
        match error_message(lines.last()) {
            Some(m) => error_messages(lines.drop_last()).push(m),
            None => error_messages(lines.drop_last()),
        }
    }
}

/// The error tail keeps file order and merges nothing: the tail of two
/// stretches of log, one after the other, is the tail of the first
/// followed by the tail of the second.
pub proof fn law_error_tail_in_file_order(first: Seq<Seq<char>>, second: Seq<Seq<char>>)
    ensures
        error_messages(first + second) == error_messages(first) + error_messages(second),
    decreases second.len(),
{
    if second.len() == 0 {
        assert(first + second =~= first);
        assert(error_messages(first) + error_messages(second) =~= error_messages(first));
    } else {
        law_error_tail_in_file_order(first, second.drop_last());
        assert((first + second).drop_last() =~= first + second.drop_last());
        assert((first + second).last() == second.last());
        match error_message(second.last()) {
            Some(m) => {
                assert((error_messages(first) + error_messages(second.drop_last())).push(m)
                    =~= error_messages(first) + error_messages(second.drop_last()).push(m));
            },
            None => {},
        }
    }
}

/// The lines of `text`: the runs between line feeds. A text without a
/// line feed is one line; a trailing line feed ends the last line and
/// opens an empty one.
pub open spec fn lines_from(text: Seq<char>, from: int) -> Seq<Seq<char>>
    decreases text.len() - from,
{
    if from < 0 || from > text.len() {
        Seq::empty()
    } else {
        let end = find_from(text, '\n', from);
        if from <= end < text.len() {
            seq![text.subrange(from, end)] + lines_from(text, end + 1)
        } else {
            seq![text.subrange(from, text.len() as int)]
        }
    }
}

/// The lines of `text`.
pub open spec fn lines_of(text: Seq<char>) -> Seq<Seq<char>> {
    lines_from(text, 0)
}

/// The message of a record with the given members if it is at error
/// level.
pub fn select_error_message(level: Option<String>, message: Option<String>) -> (r: Option<String>)
    ensures
        r.deep_view() == message_if_error(level.deep_view(), message.deep_view()),
{
    match level {
        Some(l) => {
            if crate::text::str_eq(l.as_str(), "error") {
                message
            } else {
                None
            }
        },
        None => None,
    }
}

/// The error message that `line` contributes, if any.
pub fn error_message_of(line: &str) -> (r: Option<String>)
    ensures
        r.deep_view() == error_message(line@),
{
    match parse_document(line) {
        Ok(doc) => {
            let level = string_member(&doc, "level");
            let message = string_member(&doc, "message");
            select_error_message(level, message)
        },
        Err(_) => None,
    }
}

/// The error messages of `lines`, in order: the console error tail.
pub fn filter_error_messages(lines: &Vec<String>) -> (r: Vec<String>)
    ensures
        r.deep_view() == error_messages(lines.deep_view()),
{
    let mut out: Vec<String> = Vec::new();
    let mut i: usize = 0;
    while i < lines.len()
        invariant
            i <= lines.len(),
            out.deep_view() == error_messages(lines.deep_view().take(i as int)),
        decreases lines.len() - i,
    {
        let ghost before = out.deep_view();
        let found = error_message_of(lines[i].as_str());
        proof {
            let upto = lines.deep_view().take(i + 1);
            assert(upto.last() == lines[i as int]@);
            assert(upto.drop_last() == lines.deep_view().take(i as int));
        }
        match found {
            Some(m) => {
                out.push(m);
                assert(out.deep_view() == before.push(m@));
            },
            None => {},
        }
        i += 1;
    }
    assert(lines.deep_view().take(lines.len() as int) == lines.deep_view());
    out
}

/// The lines of `text`.
pub fn split_lines(text: &str) -> (r: Vec<String>)
    ensures
        r.deep_view() == lines_of(text@),
{
    let chars = chars_of(text);
    let mut out: Vec<String> = Vec::new();
    let mut from: usize = 0;
    loop
        invariant_except_break
            lines_of(text@) == out.deep_view() + lines_from(text@, from as int),
        invariant
            from <= chars.len(),
            chars@ == text@,
        ensures
            out.deep_view() == lines_of(text@),
        decreases chars.len() - from,
    {
        let ghost before = out.deep_view();
        let end = find_char(&chars, '\n', from);
        let line = string_of_range(&chars, from, end);
        out.push(line);
        assert(out.deep_view() == before.push(line@));
        if end < chars.len() {
            assert(before + (seq![line@] + lines_from(text@, end + 1)) == before.push(line@)
                + lines_from(text@, end + 1));
            from = end + 1;
        } else {
            assert(before + seq![line@] == before.push(line@));
            break;
        }
    }
    out
}

/// The console error tail of a log's whole content: the error messages of
/// its lines, in file order. An empty content, as of a log that does not
/// exist yet, has none.
pub fn console_errors(content: &str) -> (r: Vec<String>)
    ensures
        r.deep_view() == error_messages(lines_of(content@)),
{
    let lines = split_lines(content);
    filter_error_messages(&lines)
}

} // verus!
