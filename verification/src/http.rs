//! A small model of HTTP messages: status line, headers and body.

pub mod body;
pub mod header;
pub mod request;
pub mod response;
pub mod status;
