//! An HTTP transport bridge: a verified client core that dispatches requests
//! through the reqwest engine, tolerating callers both inside and outside a
//! compatible asynchronous reactor, with a pull-based chunked byte-stream
//! adapter for request and response bodies.

pub mod adapter;
pub mod engine;
pub mod error;
pub mod extensions;
pub mod headers;
pub mod options;
pub mod request;
pub mod response;
pub mod source;
pub mod tools;
pub mod transport;
pub mod validate;
