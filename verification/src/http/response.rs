//! An HTTP response, short of the connection that it goes out on.

use vstd::prelude::*;
use vstd::string::StringExecFns;
use vstd::utf8::encode_utf8;
use crate::http::body::HttpBody;
use crate::http::header::{field_lines, has_name, HttpHeader};
use crate::http::request::crlf;
use crate::http::status::{code_as_str_name, code_name, code_number, HttpStatusCode};
use crate::text::{chars_of, decimal_string, decimal_text, lowered, same_chars, to_ascii_lowercase};

verus! {

/// A response: status code, header fields and body.
pub struct HttpResponse {
    code: HttpStatusCode,
    header: HttpHeader,
    body: HttpBody,
}

/// What a response holds.
pub struct ResponseView {
    pub code: HttpStatusCode,
    pub header: Seq<(Seq<char>, Seq<char>)>,
    pub body: Seq<char>,
}

/// Whether a field of this name is the response's own to set: the length
/// of the content and the date, in whatever case they are written.
pub open spec fn is_reserved(key: Seq<char>) -> bool {
    lowered(key) == "content-length"@ || lowered(key) == "date"@
}

/// The length in bytes of a text in UTF-8, as a machine number.
pub open spec fn body_length(body: Seq<char>) -> usize {
    encode_utf8(body).len() as usize
}

/// The text of a response that is sent at the time `date`: the status
/// line, the date, the length of the body in bytes, the header fields, the
/// content type of plain text where no field names one, an empty line, and
/// the body. Where a field names the content type, two empty lines stand
/// before the body.
pub open spec fn response_text(r: ResponseView, date: Seq<char>) -> Seq<char> {
    let head = "HTTP/1.1 "@ + decimal_text(code_number(r.code) as nat) + " "@ + code_name(r.code)
        + crlf() + "date: "@ + date + crlf() + "content-length: "@ + decimal_text(
        body_length(r.body) as nat,
    ) + crlf() + field_lines(r.header);
    if has_name(r.header, "content-type"@) {
        head + crlf() + crlf() + r.body
    } else {
        head + "content-type: text/plain; charset=utf-8"@ + crlf() + crlf() + r.body
    }
}

impl View for HttpResponse {
    type V = ResponseView;

    closed spec fn view(&self) -> ResponseView {
        ResponseView { code: self.code, header: self.header@, body: self.body.text() }
    }
}

impl HttpResponse {
    /// A response with the status code 200, no fields and an empty body.
    pub fn new() -> (r: HttpResponse)
        ensures
            r@ == (ResponseView {
                code: HttpStatusCode::Okay,
                header: Seq::empty(),
                body: Seq::empty(),
            }),
    {
        HttpResponse {
            code: HttpStatusCode::Okay,
            header: HttpHeader::default(),
            body: HttpBody::default(),
        }
    }

    /// Sets the status code.
    pub fn set_code(&mut self, code: HttpStatusCode)
        ensures
            final(self)@ == (ResponseView { code, ..old(self)@ }),
    {
        self.code = code;
    }

    /// Whether there is a field named `key`.
    pub fn get_header(&self, key: &str) -> (r: bool)
        ensures
            r == has_name(self@.header, key@),
    {
        let fields = self.header.headers();
        let wanted = key.to_owned();
        let mut i: usize = 0;
        while i < fields.len()
            invariant
                i <= fields@.len(),
                wanted@ == key@,
                fields@.len() == self@.header.len(),
                forall|j: int|
                    0 <= j < fields@.len() ==> (#[trigger] fields@[j]).0@ == self@.header[j].0,
                forall|j: int| 0 <= j < i ==> (#[trigger] self@.header[j]).0 != key@,
            decreases fields.len() - i,
        {
            if fields[i].0 == wanted {
                assert(self@.header[i as int].0 == key@);
                return true;
            }
            i += 1;
        }
        false
    }

    /// Whether a field of this name is the response's own to set.
    fn reserved(key: &str) -> (r: bool)
        ensures
            r == is_reserved(key@),
    {
        let lower = to_ascii_lowercase(key);
        let length = chars_of("content-length");
        let date = chars_of("date");
        same_chars(&lower, &length) || same_chars(&lower, &date)
    }

    /// Adds the field `key: value`, unless the name is the response's own to
    /// set or there is a field of that name already.
    pub fn add_header(&mut self, key: &str, value: &str)
        ensures
            final(self)@ == (ResponseView {
                header: if is_reserved(key@) || has_name(old(self)@.header, key@) {
                    old(self)@.header
                } else {
                    old(self)@.header.push((key@, value@))
                },
                ..old(self)@
            }),
    {
        if !HttpResponse::reserved(key) {
            let _ = self.header.add_header(key, value);
        }
    }

    /// Takes the field named `key` out and says whether there was one;
    /// never one whose name is the response's own to set.
    pub fn remove_header(&mut self, key: &str) -> (r: bool)
        ensures
            r == (!is_reserved(key@) && has_name(old(self)@.header, key@)),
            !r ==> final(self)@ == old(self)@,
            r ==> final(self)@.code == old(self)@.code && final(self)@.body == old(self)@.body
                && exists|at: int|
                0 <= at < old(self)@.header.len() && (#[trigger] old(self)@.header[at]).0 == key@
                    && final(self)@.header == old(self)@.header.remove(at),
    {
        if HttpResponse::reserved(key) {
            false
        } else {
            self.header.remove_header(key)
        }
    }

    /// The fields, each as a pair of name and value.
    pub fn headers(&self) -> (v: Vec<(String, String)>)
        ensures
            v@.len() == self@.header.len(),
            forall|i: int|
                0 <= i < v@.len() ==> (#[trigger] v@[i]).0@ == self@.header[i].0 && v@[i].1@
                    == self@.header[i].1,
    {
        self.header.headers()
    }

    /// Puts `data` behind what the body holds.
    pub fn write_str(&mut self, data: String)
        ensures
            final(self)@ == (ResponseView { body: old(self)@.body + data@, ..old(self)@ }),
    {
        self.body.append_str(data);
    }

    /// Puts `rendered`, the text of a JSON value, behind what the body holds.
    pub fn write_json(&mut self, rendered: &str)
        ensures
            final(self)@ == (ResponseView { body: old(self)@.body + rendered@, ..old(self)@ }),
    {
        self.body.append_json(rendered);
    }

    /// Replaces what the body holds by `data`.
    pub fn set_data(&mut self, data: &str)
        ensures
            final(self)@ == (ResponseView { body: data@, ..old(self)@ }),
    {
        self.body.set_data(data);
    }

    /// Empties the body.
    pub fn clear_buffer(&mut self)
        ensures
            final(self)@ == (ResponseView { body: Seq::empty(), ..old(self)@ }),
    {
        self.body.clear();
    }

    /// The text of the response as it is sent at the time `date`.
    pub fn to_string(&self, date: &str) -> (r: String)
        ensures
            r@ == response_text(self@, date@),
    {
        proof {
            reveal_strlit("\r\n");
            reveal_strlit("\r\n\r\n");
        }
        let ghost status_line = "HTTP/1.1 "@ + decimal_text(code_number(self.code) as nat) + " "@
            + code_name(self.code) + crlf();
        let ghost date_line = "date: "@ + date@ + crlf();
        let ghost length_line = "content-length: "@ + decimal_text(
            body_length(self.body.text()) as nat,
        ) + crlf();
        assert("\r\n"@ =~= crlf());
        let mut result = String::new();
        result.append("HTTP/1.1 ");
        result.append(decimal_string(self.code.number()).as_str());
        result.append(" ");
        result.append(code_as_str_name(&self.code));
        result.append("\r\n");
        assert(result@ =~= status_line);
        result.append("date: ");
        result.append(date);
        result.append("\r\n");
        assert(result@ =~= status_line + date_line);
        result.append("content-length: ");
        result.append(decimal_string(self.body.data().len()).as_str());
        result.append("\r\n");
        assert(result@ =~= status_line + date_line + length_line);
        let fields = self.header.field_text();
        result.append(fields.as_str());
        let ghost head = "HTTP/1.1 "@ + decimal_text(code_number(self.code) as nat) + " "@
            + code_name(self.code) + crlf() + "date: "@ + date@ + crlf() + "content-length: "@
            + decimal_text(body_length(self.body.text()) as nat) + crlf() + field_lines(
            self.header@,
        );
        assert(head =~= status_line + date_line + length_line + field_lines(self.header@));
        assert(result@ =~= head);
        if self.get_header("content-type") {
            result.append("\r\n");
            result.append("\r\n");
            result.append(self.body.data());
            assert(result@ =~= head + crlf() + crlf() + self.body.text());
        } else {
            result.append("content-type: text/plain; charset=utf-8\r\n");
            result.append("\r\n");
            result.append(self.body.data());
            proof {
                reveal_strlit("content-type: text/plain; charset=utf-8\r\n");
                reveal_strlit("content-type: text/plain; charset=utf-8");
                assert("content-type: text/plain; charset=utf-8\r\n"@
                    =~= "content-type: text/plain; charset=utf-8"@ + crlf());
            }
            assert(result@ =~= head + "content-type: text/plain; charset=utf-8"@ + crlf()
                + crlf() + self.body.text());
        }
        result
    }
}

} // verus!
