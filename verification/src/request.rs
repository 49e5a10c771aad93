//! Parsing of what a client sends to the trigger endpoint. Only the
//! first line counts: a method and a target separated by white space. The
//! target is a route and, after the first question mark, a query of
//! `key=value` pairs joined by ampersands.

use vstd::prelude::*;
use crate::text::{
    chars_of,
    chars_of_range,
    find_char,
    find_from,
    lemma_find_from_skip,
    string_of_range,
};

verus! {

/// Largest request that the endpoint reads, in bytes.
pub const READ_BUFFER_SIZE: usize = 1024;

/// White space between the parts of a request line.
pub open spec fn is_space(c: char) -> bool {
    c == ' ' || c == '\t' || c == '\n' || c == '\r' || c == '\x0c'
}

/// Position of the first character at or after `from` that is white
/// space (`space` true) or is not (`space` false); the length when there
/// is none.
pub open spec fn scan(s: Seq<char>, from: int, space: bool) -> int
    decreases s.len() - from,
{
    if from < 0 || from >= s.len() {
        s.len() as int
    } else if is_space(s[from]) == space {
        from
    } else {
        scan(s, from + 1, space)
    }
}

/// The first line of `text`: what stands before the first line feed.
pub open spec fn first_line(text: Seq<char>) -> Seq<char> {
    text.take(find_from(text, '\n', 0))
}

/// The first two words of the first line of `text`, the method and the
/// target; `None` where the line has fewer than two words.
pub open spec fn method_and_target(text: Seq<char>) -> Option<(Seq<char>, Seq<char>)> {
    let line = first_line(text);
    let method_start = scan(line, 0, false);
    let method_end = scan(line, method_start, true);
    let target_start = scan(line, method_end, false);
    let target_end = scan(line, target_start, true);
    if method_start < method_end && target_start < target_end {
        Some((line.subrange(method_start, method_end), line.subrange(target_start, target_end)))
    } else {
        None
    }
}

/// The route of a target: what stands before the first question mark.
pub open spec fn route_part(target: Seq<char>) -> Seq<char> {
    target.take(find_from(target, '?', 0))
}

/// The query of a target: what stands after the first question mark,
/// empty where there is none.
pub open spec fn query_part(target: Seq<char>) -> Seq<char> {
    let mark = find_from(target, '?', 0);
    if 0 <= mark < target.len() {
        target.skip(mark + 1)
    } else {
        Seq::empty()
    }
}

/// Key and value of one piece of a query: split at the first equals
/// sign, with an empty value where there is none.
pub open spec fn key_and_value(piece: Seq<char>) -> (Seq<char>, Seq<char>) {
    let eq = find_from(piece, '=', 0);
    if 0 <= eq < piece.len() {
        (piece.take(eq), piece.skip(eq + 1))
    } else {
        (piece, Seq::empty())
    }
}

/// The pairs of a query, in order: the query is cut at every ampersand,
/// each piece is split into key and value, and pieces with an empty key
/// are dropped.
pub open spec fn query_pairs(query: Seq<char>) -> Seq<(Seq<char>, Seq<char>)>
    decreases query.len(),
{
    if query.len() == 0 {
        Seq::empty()
    } else {
        let amp = find_from(query, '&', 0);
        let (head, rest) = if 0 <= amp < query.len() {
            (query.take(amp), query_pairs(query.skip(amp + 1)))
        } else {
            (query, Seq::empty())
        };
        if key_and_value(head).0.len() > 0 {
            seq![key_and_value(head)] + rest
        } else {
            rest
        }
    }
}

/// A parsed request as sequences of characters.
pub struct RequestView {
    pub method: Seq<char>,
    pub route: Seq<char>,
    pub query: Seq<(Seq<char>, Seq<char>)>,
}

/// What `text` parses to: method, route and query pairs of its first
/// line; `None` where that line has no method or no target.
pub open spec fn parsed(text: Seq<char>) -> Option<RequestView> {
    match method_and_target(text) {
        Some((method, target)) => Some(
            RequestView {
                method,
                route: route_part(target),
                query: query_pairs(query_part(target)),
            },
        ),
        None => None,
    }
}

/// The value of the first pair with key `key`.
pub open spec fn first_value(query: Seq<(Seq<char>, Seq<char>)>, key: Seq<char>, from: int)
    -> Option<Seq<char>>
    decreases query.len() - from,
{
    if from < 0 || from >= query.len() {
        None
    } else if query[from].0 == key {
        Some(query[from].1)
    } else {
        first_value(query, key, from + 1)
    }
}

/// Pairs of strings as pairs of character sequences.
pub open spec fn pairs_view(pairs: Seq<(String, String)>) -> Seq<(Seq<char>, Seq<char>)> {
    Seq::new(pairs.len(), |i: int| (pairs[i].0@, pairs[i].1@))
}

/// A parsed request.
#[derive(Debug)]
pub struct Request {
    /// The method, as sent.
    pub method: String,
    /// The target up to the first question mark.
    pub route: String,
    /// The pairs of the query, in order.
    pub query: Vec<(String, String)>,
}

impl View for Request {
    type V = RequestView;

    open spec fn view(&self) -> RequestView {
        RequestView { method: self.method@, route: self.route@, query: pairs_view(self.query@) }
    }
}

impl Request {
    /// The value of the first pair of the query with key `key`.
    pub fn query_value(&self, key: &str) -> (r: Option<String>)
        ensures
            r.deep_view() == first_value(self@.query, key@, 0),
    {
        let mut i: usize = 0;
        while i < self.query.len()
            invariant
                i <= self.query.len(),
                first_value(self@.query, key@, 0) == first_value(self@.query, key@, i as int),
            decreases self.query.len() - i,
        {
            if crate::text::str_eq(self.query[i].0.as_str(), key) {
                return Some(self.query[i].1.clone());
            }
            i += 1;
        }
        None
    }
}

fn is_space_char(c: char) -> (r: bool)
    ensures
        r == is_space(c),
{
    c == ' ' || c == '\t' || c == '\n' || c == '\r' || c == '\x0c'
}

fn scan_chars(s: &Vec<char>, from: usize, space: bool) -> (at: usize)
    requires
        from <= s.len(),
    ensures
        at == scan(s@, from as int, space),
        from <= at <= s.len(),
{
    let mut i: usize = from;
    while i < s.len() && is_space_char(s[i]) != space
        invariant
            from <= i <= s.len(),
            scan(s@, from as int, space) == scan(s@, i as int, space),
        decreases s.len() - i,
    {
        i += 1;
    }
    i
}

/// Key and value of one piece of a query.
pub fn split_pair(piece: &Vec<char>) -> (r: (String, String))
    ensures
        (r.0@, r.1@) == key_and_value(piece@),
{
    let eq = find_char(piece, '=', 0);
    if eq < piece.len() {
        (string_of_range(piece, 0, eq), string_of_range(piece, eq + 1, piece.len()))
    } else {
        assert(piece@.subrange(0, piece.len() as int) == piece@);
        (string_of_range(piece, 0, piece.len()), String::new())
    }
}

/// The pairs of a query, in order.
pub fn parse_query(query: &Vec<char>) -> (r: Vec<(String, String)>)
    ensures
        pairs_view(r@) == query_pairs(query@),
{
    let mut out: Vec<(String, String)> = Vec::new();
    let mut from: usize = 0;
    assert(query@.skip(0) == query@);
    assert(pairs_view(out@) =~= Seq::empty());
    while from < query.len()
        invariant
            from <= query.len(),
            query_pairs(query@) == pairs_view(out@) + query_pairs(query@.skip(from as int)),
        decreases query.len() - from,
    {
        let ghost before = pairs_view(out@);
        let ghost rest = query@.skip(from as int);
        let amp = find_char(query, '&', from);
        proof {
            lemma_find_from_skip(query@, '&', from as int, 0);
            assert(rest.take(amp - from) == query@.subrange(from as int, amp as int));
            if amp < query.len() {
                assert(rest.skip(amp - from + 1) == query@.skip(amp + 1));
            } else {
                assert(rest.take(amp - from) == rest);
            }
        }
        let piece = chars_of_range(query, from, amp);
        let pair = split_pair(&piece);
        let ghost tail = if amp < query.len() {
            query_pairs(query@.skip(amp + 1))
        } else {
            Seq::empty()
        };
        if pair.0.as_str().unicode_len() > 0 {
            let ghost shown = (pair.0@, pair.1@);
            out.push(pair);
            assert(pairs_view(out@) =~= before.push(shown));
            assert(before + (seq![shown] + tail) =~= before.push(shown) + tail);
        }
        if amp < query.len() {
            from = amp + 1;
        } else {
            from = amp;
            assert(query_pairs(query@.skip(from as int)) =~= Seq::empty());
        }
    }
    assert(query_pairs(query@.skip(from as int)) =~= Seq::empty());
    out
}

/// Parses the text of a request. `None` where its first line has no
/// method or no target; such a request is dropped without an answer.
pub fn parse_request(text: &str) -> (r: Option<Request>)
    ensures
        match r {
            Some(request) => parsed(text@) == Some(request@),
            None => parsed(text@) is None,
        },
{
    let chars = chars_of(text);
    let end = find_char(&chars, '\n', 0);
    let line = chars_of_range(&chars, 0, end);
    let method_start = scan_chars(&line, 0, false);
    let method_end = scan_chars(&line, method_start, true);
    let target_start = scan_chars(&line, method_end, false);
    let target_end = scan_chars(&line, target_start, true);
    if method_start < method_end && target_start < target_end {
        let method = string_of_range(&line, method_start, method_end);
        let target = chars_of_range(&line, target_start, target_end);
        let mark = find_char(&target, '?', 0);
        let route = string_of_range(&target, 0, mark);
        let query_chars = if mark < target.len() {
            chars_of_range(&target, mark + 1, target.len())
        } else {
            Vec::new()
        };
        let query = parse_query(&query_chars);
        Some(Request { method, route, query })
    } else {
        None
    }
}

/// What the endpoint makes of the bytes it has read: nothing of an empty
/// read or of bytes that are not text; otherwise what the text parses to.
pub open spec fn parsed_bytes(bytes: Seq<u8>) -> Option<RequestView> {
    if bytes.len() == 0 || !vstd::utf8::valid_utf8(bytes) {
        None
    } else {
        parsed(vstd::utf8::decode_utf8(bytes))
    }
}

/// Parses what was read from a connection. `None` where nothing was
/// read, where the bytes are not UTF-8 text, or where the first line has
/// no method or no target: the connection is then dropped without an
/// answer.
pub fn parse_request_bytes(bytes: &[u8]) -> (r: Option<Request>)
    ensures
        match r {
            Some(request) => parsed_bytes(bytes@) == Some(request@),
            None => parsed_bytes(bytes@) is None,
        },
{
    if bytes.len() == 0 {
        return None;
    }
    match crate::text::text_of_bytes(bytes) {
        Some(text) => parse_request(text),
        None => None,
    }
}

} // verus!
