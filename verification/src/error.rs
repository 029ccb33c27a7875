//! Errors of a single request.

use vstd::prelude::*;

verus! {

/// Why a request could not be answered. Each error is local to the request
/// that met it and is surfaced to the caller as a server error, without a
/// retry.
#[derive(Clone, Copy, Debug, PartialEq, Eq, Structural)]
pub enum RequestError {
    /// The body is no JSON document, holds no string `method`, or names a
    /// signature query without a signature.
    MalformedRequest,
    /// The call to the upstream node failed.
    UpstreamUnreachable,
}

impl RequestError {
    pub open spec fn spec_message(self) -> Seq<char> {
        match self {
            RequestError::MalformedRequest => "malformed request"@,
            RequestError::UpstreamUnreachable => "upstream unreachable"@,
        }
    }

    /// A short description for logs and error bodies.
    pub fn message(&self) -> (text: &'static str)
        ensures
            text@ == self.spec_message(),
    {
        match self {
            RequestError::MalformedRequest => "malformed request",
            RequestError::UpstreamUnreachable => "upstream unreachable",
        }
    }
}

} // verus!
