//! Status codes and the start line of an HTTP message.

use vstd::prelude::*;

verus! {

/// A place for the names of the status codes.
pub struct HttpStatusName {}

/// The status codes that the server knows.
#[derive(Clone, Copy, Debug, PartialEq, Eq, Hash, Structural)]
pub enum HttpStatusCode {
    Okay,
    Created,
    Accepted,
    NoContent,
    BadRequest,
    Unauthorized,
    PaymentRequired,
    Forbidden,
    NotFound,
    ServerError,
    NotImplemented,
    BadGateway,
}

/// The number of a status code.
pub open spec fn code_number(code: HttpStatusCode) -> usize {
    match code {
        HttpStatusCode::Okay => 200,
        HttpStatusCode::Created => 201,
        HttpStatusCode::Accepted => 202,
        HttpStatusCode::NoContent => 204,
        HttpStatusCode::BadRequest => 400,
        HttpStatusCode::Unauthorized => 401,
        HttpStatusCode::PaymentRequired => 402,
        HttpStatusCode::Forbidden => 403,
        HttpStatusCode::NotFound => 404,
        HttpStatusCode::ServerError => 500,
        HttpStatusCode::NotImplemented => 501,
        HttpStatusCode::BadGateway => 502,
    }
}

/// The reason phrase of a status code.
pub open spec fn code_name(code: HttpStatusCode) -> Seq<char> {
    match code {
        HttpStatusCode::Okay => "Ok"@,
        HttpStatusCode::Created => "Created"@,
        HttpStatusCode::Accepted => "Accepted"@,
        HttpStatusCode::NoContent => "No Content"@,
        HttpStatusCode::BadRequest => "Bad Request"@,
        HttpStatusCode::Unauthorized => "Unauthorized"@,
        HttpStatusCode::PaymentRequired => "Payment Required"@,
        HttpStatusCode::Forbidden => "Forbidden"@,
        HttpStatusCode::NotFound => "Not Found"@,
        HttpStatusCode::ServerError => "Internal Server Error"@,
        HttpStatusCode::NotImplemented => "Not Implemented"@,
        HttpStatusCode::BadGateway => "Bad Gateway"@,
    }
}

impl HttpStatusCode {
    /// The number of the status code.
    pub fn number(&self) -> (r: usize)
        ensures
            r == code_number(*self),
    {
        match self {
            HttpStatusCode::Okay => 200,
            HttpStatusCode::Created => 201,
            HttpStatusCode::Accepted => 202,
            HttpStatusCode::NoContent => 204,
            HttpStatusCode::BadRequest => 400,
            HttpStatusCode::Unauthorized => 401,
            HttpStatusCode::PaymentRequired => 402,
            HttpStatusCode::Forbidden => 403,
            HttpStatusCode::NotFound => 404,
            HttpStatusCode::ServerError => 500,
            HttpStatusCode::NotImplemented => 501,
            HttpStatusCode::BadGateway => 502,
        }
    }
}

/// The reason phrase of a status code.
pub fn code_as_str_name(code: &HttpStatusCode) -> (r: &'static str)
    ensures
        r@ == code_name(*code),
{
    match code {
        HttpStatusCode::Okay => "Ok",
        HttpStatusCode::Created => "Created",
        HttpStatusCode::Accepted => "Accepted",
        HttpStatusCode::NoContent => "No Content",
        HttpStatusCode::BadRequest => "Bad Request",
        HttpStatusCode::Unauthorized => "Unauthorized",
        HttpStatusCode::PaymentRequired => "Payment Required",
        HttpStatusCode::Forbidden => "Forbidden",
        HttpStatusCode::NotFound => "Not Found",
        HttpStatusCode::ServerError => "Internal Server Error",
        HttpStatusCode::NotImplemented => "Not Implemented",
        HttpStatusCode::BadGateway => "Bad Gateway",
    }
}

/// The start line of a message, with the status code that goes with it.
pub struct HttpStatus {
    code: usize,
    method: String,
    path: String,
    version: String,
}

/// What a start line holds.
pub struct StatusView {
    pub code: usize,
    pub method: Seq<char>,
    pub path: Seq<char>,
    pub version: Seq<char>,
}

impl View for HttpStatus {
    type V = StatusView;

    closed spec fn view(&self) -> StatusView {
        StatusView {
            code: self.code,
            method: self.method@,
            path: self.path@,
            version: self.version@,
        }
    }
}

impl HttpStatus {
    /// A start line.
    pub fn new(code: usize, method: &str, path: &str, version: &str) -> (r: HttpStatus)
        ensures
            r@ == (StatusView { code, method: method@, path: path@, version: version@ }),
    {
        HttpStatus {
            code,
            method: method.to_owned(),
            path: path.to_owned(),
            version: version.to_owned(),
        }
    }

    /// The status code.
    pub fn code(&self) -> (r: usize)
        ensures
            r == self@.code,
    {
        self.code
    }

    /// The method.
    pub fn method(&self) -> (r: &str)
        ensures
            r@ == self@.method,
    {
        self.method.as_str()
    }

    /// The path.
    pub fn path(&self) -> (r: &str)
        ensures
            r@ == self@.path,
    {
        self.path.as_str()
    }

    /// The protocol version.
    pub fn version(&self) -> (r: &str)
        ensures
            r@ == self@.version,
    {
        self.version.as_str()
    }
}

impl Clone for HttpStatus {
    fn clone(&self) -> (r: HttpStatus)
        ensures
            r@ == self@,
    {
        HttpStatus {
            code: self.code,
            method: self.method.clone(),
            path: self.path.clone(),
            version: self.version.clone(),
        }
    }
}

} // verus!
