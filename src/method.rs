use vstd::prelude::*;

use crate::text::str_eq;

verus! {

/// The kinds of request method.
#[derive(Clone, Debug)]
pub enum MV {
    Get,
    Head,
    Post,
    Put,
    Delete,
    Connect,
    Options,
    Trace,
    Other(String),
}

impl MV {
    /// The method's name as it appears on the request line.
    pub open spec fn name(&self) -> Seq<char> {
        match self {
            MV::Get => "GET"@,
            MV::Head => "HEAD"@,
            MV::Post => "POST"@,
            MV::Put => "PUT"@,
            MV::Delete => "DELETE"@,
            MV::Connect => "CONNECT"@,
            MV::Options => "OPTIONS"@,
            MV::Trace => "TRACE"@,
            MV::Other(s) => s@,
        }
    }
}

/// The method a request line names: a standard one by its exact upper-case
/// name, anything else kept verbatim.
pub open spec fn parse_method(s: Seq<char>) -> MV {
    if s == "GET"@ {
        MV::Get
    } else if s == "HEAD"@ {
        MV::Head
    } else if s == "POST"@ {
        MV::Post
    } else if s == "PUT"@ {
        MV::Put
    } else if s == "DELETE"@ {
        MV::Delete
    } else if s == "CONNECT"@ {
        MV::Connect
    } else if s == "OPTIONS"@ {
        MV::Options
    } else if s == "TRACE"@ {
        MV::Trace
    } else {
        MV::Other(arbitrary())
    }
}

/// A request method.
#[derive(Clone, Debug)]
pub struct Method(MV);

impl Method {
    pub closed spec fn spec_kind(&self) -> MV {
        self.0
    }

    pub fn kind(&self) -> (r: &MV)
        ensures
            *r == self.spec_kind(),
    {
        &self.0
    }

    pub fn from_kind(kind: MV) -> (r: Method)
        ensures
            r.spec_kind() == kind,
    {
        Method(kind)
    }

    pub fn as_str(&self) -> (r: &str)
        ensures
            r@ == self.spec_kind().name(),
    {
        match &self.0 {
            MV::Get => "GET",
            MV::Head => "HEAD",
            MV::Post => "POST",
            MV::Put => "PUT",
            MV::Delete => "DELETE",
            MV::Connect => "CONNECT",
            MV::Options => "OPTIONS",
            MV::Trace => "TRACE",
            MV::Other(s) => s.as_str(),
        }
    }

    pub fn from_str(src: &str) -> (r: Method)
        ensures
            r.spec_kind().name() == src@,
            !(parse_method(src@) is Other) ==> r.spec_kind() == parse_method(src@),
            parse_method(src@) is Other ==> r.spec_kind() is Other,
    {
        proof {
            reveal_strlit("GET");
            reveal_strlit("HEAD");
            reveal_strlit("POST");
            reveal_strlit("PUT");
            reveal_strlit("DELETE");
            reveal_strlit("CONNECT");
            reveal_strlit("OPTIONS");
            reveal_strlit("TRACE");
        }
        if str_eq(src, "GET") {
            Method(MV::Get)
        } else if str_eq(src, "HEAD") {
            Method(MV::Head)
        } else if str_eq(src, "POST") {
            Method(MV::Post)
        } else if str_eq(src, "PUT") {
            Method(MV::Put)
        } else if str_eq(src, "DELETE") {
            Method(MV::Delete)
        } else if str_eq(src, "CONNECT") {
            Method(MV::Connect)
        } else if str_eq(src, "OPTIONS") {
            Method(MV::Options)
        } else if str_eq(src, "TRACE") {
            Method(MV::Trace)
        } else {
            Method(MV::Other(src.to_owned()))
        }
    }
}

} // verus!
