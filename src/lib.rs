//! A typed client library for a remote text-generation HTTP API: request
//! descriptions for its endpoints, the shapes of their responses, and a
//! content-classification workflow built on the completion endpoint.
//!
//! Sending requests over the network is left to the caller: the library
//! describes each request (method, path, body fields) and interprets what
//! comes back.

pub mod content_filter;
pub mod endpoints;
pub mod fp;
pub mod token_map;

use vstd::prelude::*;

verus! {

/// The root under which every endpoint path lives.
pub const BASE_URL: &'static str = "https://api.openai.com/v1";

/// The full URL of an endpoint, given its path relative to the API root.
pub open spec fn url_of(endpoint: Seq<char>) -> Seq<char> {
    BASE_URL@ + seq!['/'] + endpoint
}

pub fn build_url(endpoint: &str) -> (r: String)
    ensures
        r@ == url_of(endpoint@),
{
    let mut url = String::from_str(BASE_URL);
    url.append("/");
    proof {
        reveal_strlit("/");
    }
    url.append(endpoint);
    url
}

/// The secret that authenticates calls to the API, sent as a bearer token.
#[derive(Clone, Debug, PartialEq, Eq, Hash)]
pub struct ApiKey {
    key: String,
}

impl ApiKey {
    pub closed spec fn view_key(&self) -> Seq<char> {
        self.key@
    }

    pub fn new(key: String) -> (r: ApiKey)
        ensures
            r.view_key() == key@,
    {
        ApiKey { key }
    }

    pub fn as_str(&self) -> (r: &str)
        ensures
            r@ == self.view_key(),
    {
        self.key.as_str()
    }
}

/// The HTTP method of a request.
#[allow(non_camel_case_types)]
#[derive(Clone, Copy, Debug, PartialEq, Eq, Structural)]
pub enum Method {
    GET,
    POST,
}

/// A failure to obtain a typed response from the API.
#[derive(Debug)]
pub enum Error {
    /// an otherwise-unhandled error occurred making the http request
    HttpError { err: String },
    /// a 4xx-series error occurred
    ClientError { err: String, status: u16 },
    /// Error deserializing the payload
    DeserializeError { err: String },
}

/// What every endpoint request declares: its HTTP method, its path
/// relative to the API root, and whether it sends a JSON body. The body
/// itself is described through the endpoint type's own methods.
pub trait Request {
    spec fn method_spec(&self) -> Method;

    spec fn endpoint_spec(&self) -> Seq<char>;

    spec fn has_body_spec(&self) -> bool;

    fn has_body(&self) -> (r: bool)
        ensures
            r == self.has_body_spec(),
    ;

    fn method(&self) -> (r: Method)
        ensures
            r == self.method_spec(),
    ;

    fn endpoint(&self) -> (r: String)
        ensures
            r@ == self.endpoint_spec(),
    ;
}

} // verus!
