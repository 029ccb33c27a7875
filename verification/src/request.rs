//! The inbound call, as far as the engine reads it.

use crate::error::RequestError;
use crate::json::{element, json_content, json_document, member, parse_document, Json};
use vstd::prelude::*;
use vstd::slice::slice_to_vec;
use vstd::string::StringExecFns;

verus! {

/// An inbound JSON-RPC call: its raw body, the name of its method and, where
/// the body holds one, the signature that it asks about.
#[derive(Debug)]
pub struct Request {
    /// The body as it came.
    pub body: Vec<u8>,
    /// The string under `method`.
    pub method: String,
    /// The string at `params[0][0]`, if there is one.
    pub signature: Option<String>,
}

/// The model of a [`Request`].
pub struct RequestView {
    pub body: Seq<u8>,
    pub method: Seq<char>,
    pub signature: Option<Seq<char>>,
}

impl View for Request {
    type V = RequestView;

    open spec fn view(&self) -> RequestView {
        RequestView {
            body: self.body@,
            method: self.method@,
            signature: match self.signature {
                Some(signature) => Some(signature@),
                None => None,
            },
        }
    }
}

/// The string under `method` in `document`, if there is one.
pub open spec fn method_in(document: Json) -> Option<Seq<char>> {
    match document.member("method"@) {
        Some(method) => method.text(),
        None => None,
    }
}

/// The string at `params[0][0]` in `document`, if there is one.
pub open spec fn signature_in(document: Json) -> Option<Seq<char>> {
    match document.member("params"@) {
        Some(params) => match params.element(0) {
            Some(first) => match first.element(0) {
                Some(signature) => signature.text(),
                None => None,
            },
            None => None,
        },
        None => None,
    }
}

/// The request that the engine reads from `document`, which came as `body`:
/// an error where the document has no string `method`.
pub open spec fn request_in(body: Seq<u8>, document: Json) -> Result<RequestView, RequestError> {
    match method_in(document) {
        Some(method) => Ok(RequestView { body, method, signature: signature_in(document) }),
        None => Err(RequestError::MalformedRequest),
    }
}

/// The request that the engine reads from `body`: an error where the body
/// is no JSON document or the document has no string `method`.
pub open spec fn request_of(body: Seq<u8>) -> Result<RequestView, RequestError> {
    match json_document(body) {
        Some(document) => request_in(body, document),
        None => Err(RequestError::MalformedRequest),
    }
}

/// The model of the outcome of reading a request.
pub open spec fn read_view(read: Result<Request, RequestError>) -> Result<
    RequestView,
    RequestError,
> {
    match read {
        Ok(request) => Ok(request@),
        Err(error) => Err(error),
    }
}

/// The string at `params[0][0]` in `document`, if there is one.
fn signature_from(document: &serde_json::Value) -> (signature: Option<String>)
    ensures
        signature is Some <==> signature_in(json_content(*document)) is Some,
        signature matches Some(text) ==> Some(text@) == signature_in(json_content(*document)),
{
    let params = match member(document, "params") {
        Some(params) => params,
        None => {
            return None;
        },
    };
    let first = match element(params, 0) {
        Some(first) => first,
        None => {
            return None;
        },
    };
    let inner = match element(first, 0) {
        Some(inner) => inner,
        None => {
            return None;
        },
    };
    match inner.as_str() {
        Some(text) => Some(String::from_str(text)),
        None => None,
    }
}

impl Request {
    /// Reads the request out of `document`, the JSON document that came as
    /// `body`.
    pub fn from_document(body: &[u8], document: &serde_json::Value) -> (read: Result<
        Request,
        RequestError,
    >)
        ensures
            read_view(read) == request_in(body@, json_content(*document)),
    {
        let method = match member(document, "method") {
            Some(method) => match method.as_str() {
                Some(text) => String::from_str(text),
                None => {
                    return Err(RequestError::MalformedRequest);
                },
            },
            None => {
                return Err(RequestError::MalformedRequest);
            },
        };
        let signature = signature_from(document);
        Ok(Request { body: slice_to_vec(body), method, signature })
    }

    /// Reads the request out of the raw `body`.
    pub fn parse(body: &[u8]) -> (read: Result<Request, RequestError>)
        ensures
            read_view(read) == request_of(body@),
    {
        match parse_document(body) {
            Ok(document) => Request::from_document(body, &document),
            Err(_) => Err(RequestError::MalformedRequest),
        }
    }
}

} // verus!
