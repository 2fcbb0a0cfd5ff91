use vstd::prelude::*;

verus! {

/// A server failure, by code.
#[derive(Clone, Copy, Debug, PartialEq, Eq, Structural)]
pub struct ServerError(pub u8);

/// Code of an invalid parameter.
pub const INVPAR: u8 = 126;

/// Code of a connection failure.
pub const CONERR: u8 = 127;

/// Code of a peer version below the supported range.
pub const VERLOW: u8 = 128;

/// Code of a peer version above the supported range.
pub const VERHIGH: u8 = 129;

/// The reason phrase of a code.
pub open spec fn reason_text(code: u8) -> Seq<char> {
    if code == INVPAR {
        "Invalid Parameter"@
    } else if code == CONERR {
        "Connection Error"@
    } else if code == VERLOW {
        "Version too Low"@
    } else if code == VERHIGH {
        "Version too High"@
    } else {
        "Error not defined"@
    }
}

impl ServerError {
    pub fn reason(&self) -> (r: &'static str)
        ensures
            r@ == reason_text(self.0),
    {
        if self.0 == INVPAR {
            "Invalid Parameter"
        } else if self.0 == CONERR {
            "Connection Error"
        } else if self.0 == VERLOW {
            "Version too Low"
        } else if self.0 == VERHIGH {
            "Version too High"
        } else {
            "Error not defined"
        }
    }
}

/// A kind of server that can be configured and opened.
pub trait ToServer {
    type Builder;

    fn new() -> Self::Builder;

    fn open(builder: Self::Builder) -> Result<(), ServerError>;
}

/// A server of some kind.
pub struct Server<T: ToServer> {
    pub inner: T,
}

/// A server speaking TLS.
pub struct TLS {}

/// Configuration of a TLS server.
pub struct TLSBuilder {}

/// A server speaking plain HTTP.
pub struct HTTP {}

/// Configuration of a plain HTTP server.
pub struct HTTPBuilder {}

} // verus!
