//! What can go wrong between sending a search and holding its records.

use vstd::prelude::*;

verus! {

/// `reqwest::Error`, the failure that the HTTP transport reports. Nothing is
/// claimed of what it holds: the library only carries it to the caller.
#[verifier::external_type_specification]
#[verifier::external_body]
pub struct ExTransportFailure(reqwest::Error);

/// `serde_json::Error`, the failure that the JSON decoder reports. Nothing is
/// claimed of what it holds: the library only carries it to the caller.
#[verifier::external_type_specification]
#[verifier::external_body]
pub struct ExDecodeFailure(serde_json::Error);

/// The single failure channel of the backend. A failed lookup carries no
/// partial result, only where it failed.
#[derive(Debug)]
pub enum LookupError {
    /// The request could not be sent, or its answer could not be read.
    Http(reqwest::Error),
    /// The backend answered, with a status that is no success.
    Status(u16),
    /// The body of a successful answer is not a search response.
    Json(serde_json::Error),
}

impl LookupError {
    /// Whether the failure arose on the way to the backend or back.
    pub open spec fn is_transport(self) -> bool {
        self is Http || self is Status
    }

    /// Whether the failure arose while decoding the answer's body.
    pub open spec fn is_decode(self) -> bool {
        self is Json
    }

    /// Whether the failure arose on the way to the backend or back.
    pub fn came_from_transport(&self) -> (b: bool)
        ensures
            b == self.is_transport(),
    {
        match self {
            LookupError::Http(_) => true,
            LookupError::Status(_) => true,
            LookupError::Json(_) => false,
        }
    }

    /// Whether the failure arose while decoding the answer's body.
    pub fn came_from_decoder(&self) -> (b: bool)
        ensures
            b == self.is_decode(),
    {
        match self {
            LookupError::Http(_) => false,
            LookupError::Status(_) => false,
            LookupError::Json(_) => true,
        }
    }
}

impl From<reqwest::Error> for LookupError {
    fn from(e: reqwest::Error) -> (r: LookupError) {
        LookupError::Http(e)
    }
}

impl vstd::std_specs::convert::FromSpecImpl<reqwest::Error> for LookupError {
    open spec fn obeys_from_spec() -> bool {
        true
    }

    open spec fn from_spec(e: reqwest::Error) -> LookupError {
        LookupError::Http(e)
    }
}

impl From<serde_json::Error> for LookupError {
    fn from(e: serde_json::Error) -> (r: LookupError) {
        LookupError::Json(e)
    }
}

impl vstd::std_specs::convert::FromSpecImpl<serde_json::Error> for LookupError {
    open spec fn obeys_from_spec() -> bool {
        true
    }

    open spec fn from_spec(e: serde_json::Error) -> LookupError {
        LookupError::Json(e)
    }
}

} // verus!
