use vstd::prelude::*;

use crate::method::{Method, MV};
use crate::uri::Uri;
use crate::utils::{HTTPHeader, Version, VV};

verus! {

/// Request line and headers of a request.
pub struct RequestHeader {
    pub method: Method,
    pub uri: Uri,
    pub version: Version,
    pub headcont: Vec<HTTPHeader>,
    pub account: Option<u16>,
}

/// A request: header part and body.
pub struct HTTPRequest {
    pub parts: RequestHeader,
    pub body: Vec<u8>,
}

impl RequestHeader {
    /// A `GET` of an empty URI in version 1.1, without headers or account.
    pub fn new() -> (r: RequestHeader)
        ensures
            r.method.spec_kind() is Get,
            r.version == Version(VV::V1_1),
            r.headcont@.len() == 0,
            r.account is None,
            r.uri.path@.len() == 0,
    {
        RequestHeader {
            method: Method::from_kind(MV::Get),
            uri: Uri::new(),
            version: Version(VV::V1_1),
            headcont: Vec::new(),
            account: None,
        }
    }
}

impl HTTPRequest {
    /// An empty request with the default header part.
    pub fn new() -> (r: HTTPRequest)
        ensures
            r.parts.method.spec_kind() is Get,
            r.parts.version == Version(VV::V1_1),
            r.parts.headcont@.len() == 0,
            r.parts.account is None,
            r.body@.len() == 0,
    {
        HTTPRequest { parts: RequestHeader::new(), body: Vec::new() }
    }
}

} // verus!
