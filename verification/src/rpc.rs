//! The messages of the JSON-RPC interface.

pub mod engine;
pub mod handler;
pub mod method_names;
pub mod methods;
pub mod options;
pub mod request;
pub mod response;
