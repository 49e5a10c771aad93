//! What the trigger endpoint answers: a status, a JSON body, and the
//! text of both on the wire.

use vstd::prelude::*;
use crate::json::{json_literal, quoted};
use crate::text::{decimal, push_decimal};

verus! {

/// The status of an answer.
#[derive(Debug, Clone, Copy, PartialEq, Eq, Structural)]
pub enum Status {
    /// The action was done.
    Success,
    /// A required query parameter is missing.
    BadRequest,
    /// No such route.
    NotFound,
    /// The method is not the one the endpoint serves.
    MethodNotAllowed,
    /// The capture was refused by the cooldown.
    TooManyRequests,
    /// The action failed.
    InternalError,
}

impl Status {
    /// The status code.
    pub open spec fn code_of(self) -> nat {
        match self {
            Status::Success => 200,
            Status::BadRequest => 400,
            Status::NotFound => 404,
            Status::MethodNotAllowed => 405,
            Status::TooManyRequests => 429,
            Status::InternalError => 500,
        }
    }

    /// The reason phrase that follows the code.
    pub open spec fn reason_of(self) -> Seq<char> {
        match self {
            Status::Success => "OK"@,
            Status::BadRequest => "Bad Request"@,
            Status::NotFound => "Not Found"@,
            Status::MethodNotAllowed => "Method Not Allowed"@,
            Status::TooManyRequests => "Too Many Requests"@,
            Status::InternalError => "Internal Server Error"@,
        }
    }

    /// The status code.
    pub fn code(&self) -> (r: u16)
        ensures
            r == self.code_of(),
    {
        match self {
            Status::Success => 200,
            Status::BadRequest => 400,
            Status::NotFound => 404,
            Status::MethodNotAllowed => 405,
            Status::TooManyRequests => 429,
            Status::InternalError => 500,
        }
    }

    /// The reason phrase that follows the code.
    pub fn reason(&self) -> (r: &'static str)
        ensures
            r@ == self.reason_of(),
    {
        match self {
            Status::Success => "OK",
            Status::BadRequest => "Bad Request",
            Status::NotFound => "Not Found",
            Status::MethodNotAllowed => "Method Not Allowed",
            Status::TooManyRequests => "Too Many Requests",
            Status::InternalError => "Internal Server Error",
        }
    }
}

/// An answer as a status and the characters of its body.
pub struct ResponseView {
    pub status: Status,
    pub body: Seq<char>,
}

/// An answer of the endpoint.
#[derive(Debug)]
pub struct Response {
    pub status: Status,
    /// The JSON body.
    pub body: String,
}

impl View for Response {
    type V = ResponseView;

    open spec fn view(&self) -> ResponseView {
        ResponseView { status: self.status, body: self.body@ }
    }
}

/// The text of an answer on the wire: the status line, the content type,
/// the length of the body in bytes, the notice that the connection
/// closes, an empty line and the body.
pub open spec fn rendered(response: ResponseView) -> Seq<char> {
    "HTTP/1.1 "@ + decimal(response.status.code_of()) + " "@ + response.status.reason_of()
        + "\r\nContent-Type: application/json\r\nContent-Length: "@ + decimal(
        vstd::utf8::encode_utf8(response.body).len(),
    ) + "\r\nConnection: close\r\n\r\n"@ + response.body
}

/// The body of a success without a payload.
pub open spec fn plain_ok_body() -> Seq<char> {
    "{\"ok\":true}"@
}

/// The body of a success that carries `value`, a JSON text, under the
/// member `field`.
pub open spec fn ok_body(field: Seq<char>, value: Seq<char>) -> Seq<char> {
    "{\"ok\":true,\""@ + field + "\":"@ + value + "}"@
}

/// The body of a failure whose message, as a JSON string literal, is
/// `message`.
pub open spec fn error_body(message: Seq<char>) -> Seq<char> {
    "{\"ok\":false,\"error\":"@ + message + "}"@
}

/// The body of the answer given when something cannot be put into
/// JSON.
pub open spec fn unserializable_body() -> Seq<char> {
    "{\"ok\":false,\"error\":\"serialization failed\"}"@
}

/// The failure answer with the given status for a message whose JSON
/// string literal is `literal`. Where the codec gave no literal the
/// answer keeps its status and says that serialization failed.
pub open spec fn failure_view(status: Status, literal: Option<Seq<char>>) -> ResponseView {
    match literal {
        Some(message) => ResponseView { status, body: error_body(message) },
        None => ResponseView { status, body: unserializable_body() },
    }
}

/// The codec gives a literal for every one of `items`.
pub open spec fn all_quotable(items: Seq<Seq<char>>) -> bool {
    forall|i: int| 0 <= i < items.len() ==> (#[trigger] json_literal(items[i])) is Some
}

/// The JSON string literal of each of `items`, in order; `None` where
/// the codec gives none for one of them.
pub open spec fn each_literal(items: Seq<Seq<char>>) -> Option<Seq<Seq<char>>> {
    if all_quotable(items) {
        Some(Seq::new(items.len(), |i: int| json_literal(items[i])->0))
    } else {
        None
    }
}

/// The JSON array of the strings `items`: their literals between
/// brackets, with a comma between each two; `None` where the codec gives
/// no literal for one of them.
pub open spec fn string_array(items: Seq<Seq<char>>) -> Option<Seq<char>> {
    match each_literal(items) {
        Some(literals) => Some("["@ + joined(literals) + "]"@),
        None => None,
    }
}

impl Response {
    /// The answer to a request that needed no payload: `{"ok":true}`.
    pub fn plain_ok() -> (r: Response)
        ensures
            r@ == (ResponseView { status: Status::Success, body: plain_ok_body() }),
    {
        Response { status: Status::Success, body: String::from_str("{\"ok\":true}") }
    }

    /// A success that carries `value`, a JSON text, under the member
    /// `field`.
    pub fn ok_with(field: &str, value: &str) -> (r: Response)
        ensures
            r@ == (ResponseView { status: Status::Success, body: ok_body(field@, value@) }),
    {
        let mut body = String::from_str("{\"ok\":true,\"");
        body.append(field);
        body.append("\":");
        body.append(value);
        body.append("}");
        Response { status: Status::Success, body }
    }

    /// A failure with the given status whose message, already a JSON
    /// string literal, is `message`.
    pub fn failure_with(status: Status, message: &str) -> (r: Response)
        ensures
            r@ == (ResponseView { status, body: error_body(message@) }),
    {
        let mut body = String::from_str("{\"ok\":false,\"error\":");
        body.append(message);
        body.append("}");
        Response { status, body }
    }

    /// A failure with the given status and message: the message, as the
    /// JSON string literal that the codec gives for it, is the `error`
    /// member of the body. Where the codec gives no literal the answer
    /// keeps its status and says that serialization failed.
    pub fn failure(status: Status, message: &str) -> (r: Response)
        ensures
            r@ == failure_view(status, json_literal(message@)),
    {
        Self::failure_from(status, quoted(message))
    }

    /// The failure answer for a message that the codec has quoted, or has
    /// failed to quote.
    pub fn failure_from(status: Status, message: Option<String>) -> (r: Response)
        ensures
            r@ == failure_view(status, message.deep_view()),
    {
        match message {
            Some(m) => Self::failure_with(status, m.as_str()),
            None => Response {
                status,
                body: String::from_str("{\"ok\":false,\"error\":\"serialization failed\"}"),
            },
        }
    }

    /// The answer given when the payload of a success cannot be put into
    /// JSON.
    pub fn unserializable() -> (r: Response)
        ensures
            r@ == unserializable_view(),
    {
        Response {
            status: Status::InternalError,
            body: String::from_str("{\"ok\":false,\"error\":\"serialization failed\"}"),
        }
    }

    /// The text of this answer on the wire.
    pub fn render(&self) -> (r: String)
        ensures
            r@ == rendered(self@),
    {
        let mut out = String::from_str("HTTP/1.1 ");
        push_decimal(&mut out, self.status.code() as u64);
        out.append(" ");
        out.append(self.status.reason());
        out.append("\r\nContent-Type: application/json\r\nContent-Length: ");
        push_decimal(&mut out, self.body.as_str().as_bytes().len() as u64);
        out.append("\r\nConnection: close\r\n\r\n");
        out.append(self.body.as_str());
        assert(out@ =~= rendered(self@));
        out
    }
}

/// The answer given when the payload of a success cannot be put into
/// JSON: an internal error.
pub open spec fn unserializable_view() -> ResponseView {
    ResponseView { status: Status::InternalError, body: unserializable_body() }
}

/// The JSON array of strings made of items that are JSON string literals
/// already.
pub fn array_of_quoted(items: &Vec<String>) -> (r: String)
    ensures
        r@ == "["@ + joined(items.deep_view()) + "]"@,
{
    let mut out = String::from_str("[");
    let mut i: usize = 0;
    assert(joined(items.deep_view().take(0)) =~= Seq::empty());
    while i < items.len()
        invariant
            i <= items.len(),
            out@ == "["@ + joined(items.deep_view().take(i as int)),
        decreases items.len() - i,
    {
        proof {
            let upto = items.deep_view().take(i + 1);
            assert(upto.drop_last() == items.deep_view().take(i as int));
            assert(upto.last() == items[i as int]@);
            if i > 0 {
                assert(joined(upto) == joined(upto.drop_last()) + ","@ + upto.last());
            } else {
                assert(joined(upto) == upto[0]);
            }
        }
        if i > 0 {
            out.append(",");
        }
        out.append(items[i].as_str());
        i += 1;
    }
    assert(items.deep_view().take(items.len() as int) == items.deep_view());
    out.append("]");
    out
}

/// `items` with a comma between each two.
pub open spec fn joined(items: Seq<Seq<char>>) -> Seq<char>
    decreases items.len(),
{
    if items.len() == 0 {
        Seq::empty()
    } else if items.len() == 1 {
        items[0]
    } else {
        joined(items.drop_last()) + ","@ + items.last()
    }
}

/// The JSON string literal of each of `items`; `None` exactly where the
/// codec gives none for one of them.
pub fn quote_each(items: &Vec<String>) -> (r: Option<Vec<String>>)
    ensures
        r.deep_view() == each_literal(items.deep_view()),
{
    let ghost all = items.deep_view();
    let mut out: Vec<String> = Vec::new();
    let mut i: usize = 0;
    while i < items.len()
        invariant
            i <= items.len(),
            all == items.deep_view(),
            out.len() == i,
            forall|j: int| 0 <= j < i ==> (#[trigger] json_literal(all[j])) == Some(out[j]@),
        decreases items.len() - i,
    {
        match quoted(items[i].as_str()) {
            Some(q) => {
                out.push(q);
            },
            None => {
                assert(json_literal(all[i as int]) is None);
                return None;
            },
        }
        i += 1;
    }
    assert(all_quotable(all));
    assert(out.deep_view() =~= each_literal(all)->0);
    Some(out)
}

/// The JSON array of the strings `items`; `None` exactly where the
/// codec gives no literal for one of them.
pub fn json_array(items: &Vec<String>) -> (r: Option<String>)
    ensures
        r.deep_view() == string_array(items.deep_view()),
{
    match quote_each(items) {
        Some(q) => Some(array_of_quoted(&q)),
        None => None,
    }
}

} // verus!
