//! Fixed texts that the service sends.

use vstd::prelude::*;

verus! {

/// The answer to a request without body: what the service allows.
pub const HTTP_OPTIONS: &'static str =
    "HTTP/1.1 200 OK\r\ndate: Mon, 7 Jun 2021 23:33 GMT\r\nAccess-Control-Allow-Origin: *\r\n\n    Access-Control-Allow-Headers: Content-Type\r\nAllow: POST\r\nAccess-Control-Max-Age: 86400\r\nKeep-Alive: timeout=2, max=99\r\ncontent-length: 0\r\ncontent-type: text/html\r\n\r\n";

/// The head of an answer in JSON, with places for the parts of the date.
pub const HTTP_HEADER_TEMPLATE: &'static str =
    "HTTP/1.1 200 OK\r\ndate: {}, {} {} {} {} GMT\r\ncontent-type: application/json\r\n\r\n";

} // verus!
