//! An HTTP request.

use vstd::prelude::*;
use vstd::string::StringExecFns;
use crate::http::body::HttpBody;
use crate::http::header::{header_text, with_field, HttpHeader};
use crate::http::status::{HttpStatus, StatusView};
use crate::text::{
    chars_of, decode_lossy, lemma_split_has_a_piece, pattern_matches, piece_views, regex_search,
    split, split_by, string_of, utf8_lossy,
};

verus! {

/// A request as it came off the wire: a buffer, and how much of it is filled.
pub struct RawRequest {
    buffer: [u8; 8096],
    length: usize,
}

impl RawRequest {
    /// The buffer.
    pub closed spec fn buffer(&self) -> Seq<u8> {
        self.buffer@
    }

    /// The number of bytes that were received.
    pub closed spec fn length(&self) -> usize {
        self.length
    }

    /// A raw request.
    pub fn new(buffer: [u8; 8096], length: usize) -> (r: RawRequest)
        ensures
            r.buffer() == buffer@,
            r.length() == length,
    {
        RawRequest { buffer, length }
    }
}

/// A request: start line, header fields and body.
pub struct HttpRequest {
    status: HttpStatus,
    header: HttpHeader,
    body: HttpBody,
}

impl HttpRequest {
    /// The start line.
    pub closed spec fn status_view(&self) -> StatusView {
        self.status@
    }

    /// The header fields.
    pub closed spec fn header_view(&self) -> Seq<(Seq<char>, Seq<char>)> {
        self.header@
    }

    /// The text of the body.
    pub closed spec fn body_text(&self) -> Seq<char> {
        self.body.text()
    }

    /// A request made of its parts.
    pub fn from_parts(status: HttpStatus, header: HttpHeader, body: HttpBody) -> (r: HttpRequest)
        ensures
            r.status_view() == status@,
            r.header_view() == header@,
            r.body_text() == body.text(),
    {
        HttpRequest { status, header, body }
    }

    /// The method.
    pub fn method(&self) -> (r: &str)
        ensures
            r@ == self.status_view().method,
    {
        self.status.method()
    }

    /// The path.
    pub fn path(&self) -> (r: &str)
        ensures
            r@ == self.status_view().path,
    {
        self.status.path()
    }

    /// The header fields.
    pub fn header(&self) -> (r: &HttpHeader)
        ensures
            r@ == self.header_view(),
    {
        &self.header
    }

    /// The protocol version.
    pub fn version(&self) -> (r: &str)
        ensures
            r@ == self.status_view().version,
    {
        self.status.version()
    }

    /// The body.
    pub fn body(&self) -> (r: &HttpBody)
        ensures
            r.text() == self.body_text(),
    {
        &self.body
    }
}

/// The regular expression that a start line must match somewhere: a method,
/// a blank, a path without blanks, a blank, and the protocol version.
pub const START_LINE_PATTERN: &'static str =
    "((GET|POST|PUT|PATCH|DELETE|OPTIONS|HEAD|CONNECT|TRACE)\\s\\S+\\sHTTP/\\d\\.\\d)";

/// Whether `c` is white space as Unicode defines it.
pub open spec fn is_space(c: char) -> bool {
    let u = c as u32;
    (0x09 <= u <= 0x0d) || u == 0x20 || u == 0x85 || u == 0xa0 || u == 0x1680 || (0x2000 <= u
        <= 0x200a) || u == 0x2028 || u == 0x2029 || u == 0x202f || u == 0x205f || u == 0x3000
}

/// Whether the text holds nothing but white space.
pub open spec fn is_blank(s: Seq<char>) -> bool {
    forall|i: int| 0 <= i < s.len() ==> is_space(#[trigger] s[i])
}

/// The line end.
pub open spec fn crlf() -> Seq<char> {
    seq!['\r', '\n']
}

/// The empty line that parts the head of a message from its body.
pub open spec fn head_end() -> Seq<char> {
    seq!['\r', '\n', '\r', '\n']
}

/// The start line that `line` holds, `matched` saying whether the line
/// matches `START_LINE_PATTERN`: the first three of the pieces between its
/// blanks, as method, path and version, with the status code 200. Nothing
/// for a line of white space, a line that does not match, and a line of
/// fewer than three pieces.
pub open spec fn start_line(line: Seq<char>, matched: bool) -> Option<StatusView> {
    let tokens = split_by(line, seq![' ']);
    if is_blank(line) || !matched || tokens.len() < 3 {
        None
    } else {
        Some(StatusView { code: 200, method: tokens[0], path: tokens[1], version: tokens[2] })
    }
}

/// The header fields that the lines from the second up to `upto` hold, each
/// line giving the piece before its first `": "` as name and the piece
/// behind it as value, a later line of a name replacing the value of an
/// earlier one. Nothing where a line holds no `": "`.
pub open spec fn fields_of(lines: Seq<Seq<char>>, upto: int) -> Option<
    Seq<(Seq<char>, Seq<char>)>,
>
    decreases upto,
{
    if upto <= 1 {
        Some(Seq::empty())
    } else {
        match fields_of(lines, upto - 1) {
            None => None,
            Some(fields) => {
                let tokens = split_by(lines[upto - 1], seq![':', ' ']);
                if tokens.len() < 2 {
                    None
                } else {
                    Some(with_field(fields, tokens[0], tokens[1]))
                }
            },
        }
    }
}

/// Whether the first line of a head matches `START_LINE_PATTERN`.
pub open spec fn first_line_matches(head: Seq<char>) -> bool {
    regex_search(START_LINE_PATTERN@, split_by(head, crlf())[0]) == Some(true)
}

/// The start line and the fields that the head of a message holds.
pub open spec fn head_of(head: Seq<char>) -> Option<(StatusView, Seq<(Seq<char>, Seq<char>)>)> {
    let lines = split_by(head, crlf());
    match (start_line(lines[0], first_line_matches(head)), fields_of(lines, lines.len() as int)) {
        (Some(status), Some(fields)) => Some((status, fields)),
        _ => None,
    }
}

/// What a request holds.
pub struct RequestView {
    pub status: StatusView,
    pub header: Seq<(Seq<char>, Seq<char>)>,
    pub body: Seq<char>,
}

/// The request that a text holds: its head is what stands before the first
/// empty line, its body what stands between the first and the second.
pub open spec fn request_of(text: Seq<char>) -> Option<RequestView> {
    let parts = split_by(text, head_end());
    match head_of(parts[0]) {
        None => None,
        Some(head) => Some(
            RequestView {
                status: head.0,
                header: head.1,
                body: if parts.len() > 1 {
                    parts[1]
                } else {
                    Seq::empty()
                },
            },
        ),
    }
}

/// Whether `c` is white space as Unicode defines it.
fn is_white_space(c: char) -> (r: bool)
    ensures
        r == is_space(c),
{
    let u: u32 = c as u32;
    (0x09 <= u && u <= 0x0d) || u == 0x20 || u == 0x85 || u == 0xa0 || u == 0x1680 || (0x2000 <= u
        && u <= 0x200a) || u == 0x2028 || u == 0x2029 || u == 0x202f || u == 0x205f || u == 0x3000
}

/// Whether the characters are nothing but white space.
fn all_white_space(s: &Vec<char>) -> (r: bool)
    ensures
        r == is_blank(s@),
{
    let mut i: usize = 0;
    while i < s.len()
        invariant
            i <= s@.len(),
            forall|j: int| 0 <= j < i ==> is_space(#[trigger] s@[j]),
        decreases s.len() - i,
    {
        if !is_white_space(s[i]) {
            return false;
        }
        i += 1;
    }
    true
}

/// The start line that `line` holds, `matched` saying whether the line
/// matches `START_LINE_PATTERN`.
pub fn build_start_line(line: &Vec<char>, matched: bool) -> (r: Result<HttpStatus, ()>)
    ensures
        r.is_ok() == start_line(line@, matched).is_some(),
        r.is_ok() ==> r.unwrap()@ == start_line(line@, matched).unwrap(),
{
    if all_white_space(line) || !matched {
        return Err(());
    }
    let mut blank: Vec<char> = Vec::new();
    blank.push(' ');
    assert(blank@ =~= seq![' ']);
    let tokens = split(line, &blank);
    if tokens.len() < 3 {
        return Err(());
    }
    let method = string_of(&tokens[0], 0, tokens[0].len());
    let path = string_of(&tokens[1], 0, tokens[1].len());
    let version = string_of(&tokens[2], 0, tokens[2].len());
    proof {
        let views = piece_views(tokens@);
        assert(views[0] == tokens@[0]@ && views[1] == tokens@[1]@ && views[2] == tokens@[2]@);
        assert(tokens@[0]@.subrange(0, tokens@[0]@.len() as int) =~= tokens@[0]@);
        assert(tokens@[1]@.subrange(0, tokens@[1]@.len() as int) =~= tokens@[1]@);
        assert(tokens@[2]@.subrange(0, tokens@[2]@.len() as int) =~= tokens@[2]@);
    }
    Ok(HttpStatus::new(200, method.as_str(), path.as_str(), version.as_str()))
}

/// The start line that `start_line_literal` holds.
pub fn extract_start_line(start_line_literal: &str) -> (r: Result<HttpStatus, ()>)
    ensures
        r.is_ok() == start_line(
            start_line_literal@,
            regex_search(START_LINE_PATTERN@, start_line_literal@) == Some(true),
        ).is_some(),
        r.is_ok() ==> r.unwrap()@ == start_line(start_line_literal@, true).unwrap(),
{
    let matched = match pattern_matches(START_LINE_PATTERN, start_line_literal) {
        Some(found) => found,
        None => false,
    };
    let line = chars_of(start_line_literal);
    build_start_line(&line, matched)
}

/// The header fields that the lines behind the first hold.
pub fn collect_fields(lines: &Vec<Vec<char>>) -> (r: Result<HttpHeader, ()>)
    ensures
        r.is_ok() == fields_of(piece_views(lines@), lines@.len() as int).is_some(),
        r.is_ok() ==> r.unwrap()@ == fields_of(piece_views(lines@), lines@.len() as int).unwrap(),
{
    let mut colon: Vec<char> = Vec::new();
    colon.push(':');
    colon.push(' ');
    assert(colon@ =~= seq![':', ' ']);
    let mut header = HttpHeader::new();
    let mut i: usize = 1;
    if lines.len() <= 1 {
        return Ok(header);
    }
    while i < lines.len()
        invariant
            1 <= i <= lines@.len(),
            colon@ == seq![':', ' '],
            fields_of(piece_views(lines@), i as int) == Some(header@),
        decreases lines.len() - i,
    {
        let tokens = split(&lines[i], &colon);
        assert(piece_views(lines@)[i as int] == lines@[i as int]@);
        if tokens.len() < 2 {
            proof {
                lemma_fields_fail_for_good(piece_views(lines@), i + 1, lines@.len() as int);
            }
            return Err(());
        }
        let key = string_of(&tokens[0], 0, tokens[0].len());
        let value = string_of(&tokens[1], 0, tokens[1].len());
        proof {
            let views = piece_views(tokens@);
            assert(views[0] == tokens@[0]@ && views[1] == tokens@[1]@);
            assert(tokens@[0]@.subrange(0, tokens@[0]@.len() as int) =~= tokens@[0]@);
            assert(tokens@[1]@.subrange(0, tokens@[1]@.len() as int) =~= tokens@[1]@);
        }
        header.set_header(key.as_str(), value.as_str());
        i += 1;
    }
    Ok(header)
}

/// Once a line holds no field, no longer run of lines gives fields.
proof fn lemma_fields_fail_for_good(lines: Seq<Seq<char>>, failed: int, upto: int)
    requires
        1 < failed <= upto,
        fields_of(lines, failed).is_none(),
    ensures
        fields_of(lines, upto).is_none(),
    decreases upto - failed,
{
    if failed < upto {
        lemma_fields_fail_for_good(lines, failed, upto - 1);
    }
}

/// The start line and the header fields that `header_literal` holds.
pub fn extract_header(header_literal: &str) -> (r: Result<(HttpStatus, HttpHeader), ()>)
    ensures
        r.is_ok() == head_of(header_literal@).is_some(),
        r.is_ok() ==> r.unwrap().0@ == head_of(header_literal@).unwrap().0 && r.unwrap().1@
            == head_of(header_literal@).unwrap().1,
{
    let mut line_end: Vec<char> = Vec::new();
    line_end.push('\r');
    line_end.push('\n');
    assert(line_end@ =~= crlf());
    let text = chars_of(header_literal);
    let lines = split(&text, &line_end);
    proof {
        lemma_split_has_a_piece(text@, crlf());
        assert(piece_views(lines@)[0] == lines@[0]@);
        assert(lines@[0]@.subrange(0, lines@[0]@.len() as int) =~= lines@[0]@);
    }
    let first = string_of(&lines[0], 0, lines[0].len());
    let status = match extract_start_line(first.as_str()) {
        Ok(status) => status,
        Err(e) => {
            return Err(());
        },
    };
    match collect_fields(&lines) {
        Ok(header) => Ok((status, header)),
        Err(e) => Err(()),
    }
}

/// A body of plain text that holds `body_literal`.
pub fn extract_body(body_literal: &str) -> (r: HttpBody)
    ensures
        r.text() == body_literal@,
{
    HttpBody::from_text(body_literal)
}

/// The request that `text` holds.
pub fn parse_request(text: &str) -> (r: Result<HttpRequest, ()>)
    ensures
        r.is_ok() == request_of(text@).is_some(),
        r.is_ok() ==> r.unwrap().view() == request_of(text@).unwrap(),
{
    let mut empty_line: Vec<char> = Vec::new();
    empty_line.push('\r');
    empty_line.push('\n');
    empty_line.push('\r');
    empty_line.push('\n');
    assert(empty_line@ =~= head_end());
    let all = chars_of(text);
    let parts = split(&all, &empty_line);
    proof {
        lemma_split_has_a_piece(all@, head_end());
        assert(piece_views(parts@)[0] == parts@[0]@);
        assert(parts@[0]@.subrange(0, parts@[0]@.len() as int) =~= parts@[0]@);
        if parts@.len() > 1 {
            assert(piece_views(parts@)[1] == parts@[1]@);
            assert(parts@[1]@.subrange(0, parts@[1]@.len() as int) =~= parts@[1]@);
        }
    }
    let head = string_of(&parts[0], 0, parts[0].len());
    let body_text = if parts.len() > 1 {
        string_of(&parts[1], 0, parts[1].len())
    } else {
        String::new()
    };
    match extract_header(head.as_str()) {
        Ok((status, header)) => Ok(
            HttpRequest { status, header, body: extract_body(body_text.as_str()) },
        ),
        Err(e) => Err(()),
    }
}

impl HttpRequest {
    /// What the request holds.
    pub closed spec fn view(&self) -> RequestView {
        RequestView {
            status: self.status_view(),
            header: self.header_view(),
            body: self.body_text(),
        }
    }

    /// The text of the request: the start line, the header fields with the
    /// empty line behind them, and the body.
    pub fn to_string(&self) -> (r: String)
        ensures
            r@ == self@.status.method + seq![' '] + self@.status.path + seq![' ']
                + self@.status.version + crlf() + header_text(self@.header) + self@.body,
    {
        proof {
            reveal_strlit(" ");
            reveal_strlit("\r\n");
            assert(" "@ =~= seq![' ']);
            assert("\r\n"@ =~= crlf());
        }
        let mut result = String::new();
        result.append(self.status.method());
        result.append(" ");
        result.append(self.status.path());
        result.append(" ");
        result.append(self.status.version());
        result.append("\r\n");
        let ghost line = self@.status.method + seq![' '] + self@.status.path + seq![' ']
            + self@.status.version + crlf();
        assert(result@ =~= line);
        result.append(self.header.to_string().as_str());
        result.append(self.body.data());
        assert(result@ =~= line + header_text(self@.header) + self@.body);
        result
    }

    /// The request that the received bytes of `request` hold, read as UTF-8
    /// with a replacement character wherever they are none; an error where
    /// they hold none, or where more bytes are said to be received than the
    /// buffer has.
    pub fn from_raw_request(request: RawRequest) -> (r: Result<HttpRequest, ()>)
        ensures
            request.length() > 8096 ==> r.is_err(),
            request.length() <= 8096 ==> r.is_ok() == request_of(
                utf8_lossy(request.buffer().subrange(0, request.length() as int)),
            ).is_some(),
            request.length() <= 8096 && r.is_ok() ==> r.unwrap().view() == request_of(
                utf8_lossy(request.buffer().subrange(0, request.length() as int)),
            ).unwrap(),
    {
        if request.length > 8096 {
            return Err(());
        }
        let mut received: Vec<u8> = Vec::new();
        let mut i: usize = 0;
        while i < request.length
            invariant
                i <= request.length <= 8096,
                received@ == request.buffer@.subrange(0, i as int),
            decreases request.length - i,
        {
            received.push(request.buffer[i]);
            i += 1;
            assert(received@ =~= request.buffer@.subrange(0, i as int));
        }
        let text = decode_lossy(received.as_slice());
        parse_request(text.as_str())
    }
}

} // verus!
