use vstd::prelude::*;

verus! {

/// The only methods this proxy forwards to the backend.
#[derive(Debug, Clone, Copy, PartialEq, Eq)]
pub enum Method {
    Get,
    Post,
}

/// An inbound request, reduced to what the pipeline decides on: method, the
/// absolute path with optional query from the request line, headers, body.
#[derive(Debug, PartialEq, Eq)]
pub struct HttpRequestData {
    pub method: Method,
    pub path_and_query: String,
    pub headers: Vec<(String, String)>,
    pub body: Vec<u8>,
}

/// A buffered HTTP response: status, headers, body.
#[derive(Debug, PartialEq, Eq)]
pub struct HttpResponseData {
    pub status: u16,
    pub headers: Vec<(String, String)>,
    pub body: Vec<u8>,
}

/// What the preset-content resolver answered for the canonical request URL.
/// `Direct` is served verbatim; `ToBeSigned` carries the fallback target URL
/// and the payload to sign; a resolver that matched nothing answers `None`
/// around this type, and the request is proxied to the backend.
#[derive(Debug, PartialEq, Eq)]
pub enum PresetContent {
    Direct(HttpResponseData),
    ToBeSigned { url: String, payload: HttpResponseData },
}

} // verus!
