//! The parts of an HTTP request line.

use vstd::prelude::*;

verus! {

/// The request methods the service tells apart.
pub enum Method {
    POST,
    PUT,
    GET,
    DELETE,
}

/// An HTTP request line: its method, its path and its protocol.
pub struct HttpRequest {
    pub method: Method,
    pub path: String,
    pub protocol: String,
}

} // verus!
