//! The body of an HTTP message.

use vstd::prelude::*;
use vstd::string::StringExecFns;

verus! {

/// What kind of data a body holds.
#[derive(Clone, Copy, Debug, PartialEq, Eq, Structural)]
pub enum BodyDataType {
    PlainText,
    ApplicationJson,
    UrlEncodedForm,
    MultipartForm,
}

/// A form in URL encoding.
pub struct UrlEncodedForm(pub String);

/// A form in multipart encoding.
pub struct MultipartForm(pub String);

/// A body: the kind of its data, and the data as text.
pub struct HttpBody(BodyDataType, String);

impl HttpBody {
    /// The kind of data.
    pub closed spec fn kind(&self) -> BodyDataType {
        self.0
    }

    /// The data.
    pub closed spec fn text(&self) -> Seq<char> {
        self.1@
    }

    /// A body of plain text that holds `data`.
    pub fn from_text(data: &str) -> (r: HttpBody)
        ensures
            r.kind() == BodyDataType::PlainText,
            r.text() == data@,
    {
        HttpBody(BodyDataType::PlainText, data.to_owned())
    }

    /// A JSON body that holds `rendered`, the text of a JSON value.
    pub fn from_json_text(rendered: &str) -> (r: HttpBody)
        ensures
            r.kind() == BodyDataType::ApplicationJson,
            r.text() == rendered@,
    {
        HttpBody(BodyDataType::ApplicationJson, rendered.to_owned())
    }

    /// Puts `data` behind what the body holds.
    pub fn append_str(&mut self, data: String)
        ensures
            final(self).kind() == old(self).kind(),
            final(self).text() == old(self).text() + data@,
    {
        self.1.append(data.as_str());
    }

    /// Puts `rendered`, the text of a JSON value, behind what the body holds.
    pub fn append_json(&mut self, rendered: &str)
        ensures
            final(self).kind() == old(self).kind(),
            final(self).text() == old(self).text() + rendered@,
    {
        self.1.append(rendered);
    }

    /// Replaces what the body holds by `data`.
    pub fn set_data(&mut self, data: &str)
        ensures
            final(self).kind() == old(self).kind(),
            final(self).text() == data@,
    {
        self.1 = data.to_owned();
    }

    /// What the body holds.
    pub fn data(&self) -> (r: &str)
        ensures
            r@ == self.text(),
    {
        self.1.as_str()
    }

    /// Empties the body.
    pub fn clear(&mut self)
        ensures
            final(self).kind() == old(self).kind(),
            final(self).text() == Seq::<char>::empty(),
    {
        self.1 = String::new();
    }

    /// What the body holds, as a new string.
    pub fn to_string(&self) -> (r: String)
        ensures
            r@ == self.text(),
    {
        self.1.clone()
    }
}

impl Clone for HttpBody {
    fn clone(&self) -> (r: HttpBody)
        ensures
            r.kind() == self.kind(),
            r.text() == self.text(),
    {
        HttpBody(self.0, self.1.clone())
    }
}

impl Default for HttpBody {
    /// An empty body of plain text.
    fn default() -> (r: HttpBody)
        ensures
            r.kind() == BodyDataType::PlainText,
            r.text() == Seq::<char>::empty(),
    {
        HttpBody(BodyDataType::PlainText, String::new())
    }
}

} // verus!
