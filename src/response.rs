use vstd::prelude::*;
use vstd::string::*;

use crate::text::{decimal, decimal_string};
use crate::request::HTTPRequest;
use crate::utils::{media_type, version_name, ContType, Formattype, Version, VV};

verus! {

/// Response status codes.
#[derive(Clone, Copy, Debug, PartialEq, Eq, Structural)]
pub enum Codes {
    SC100,
    SC101,
    SC200,
    SC201,
    SC202,
    SC203,
    SC204,
    SC205,
    SC206,
    SC300,
    SC301,
    SC302,
    SC303,
    SC304,
    SC307,
    SC308,
    SC400,
    SC401,
    SC402,
    SC403,
    SC404,
    SC405,
    SC406,
    SC407,
    SC408,
    SC409,
    SC410,
    SC411,
    SC412,
    SC413,
    SC414,
    SC415,
    SC416,
    SC417,
    SC418,
    SC421,
    SC422,
    SC423,
    SC424,
    SC425,
    SC426,
    SC428,
    SC429,
    SC431,
    SC451,
    SC500,
    SC501,
    SC502,
    SC503,
    SC504,
    SC505,
    SC506,
    SC507,
    SC508,
    SC510,
    SC511,
}

/// The status line text of a code: its number and reason phrase.
pub open spec fn status_text(c: Codes) -> Seq<char> {
    match c {
        Codes::SC100 => "100 Continue"@,
        Codes::SC101 => "101 Switching Protocols"@,
        Codes::SC200 => "200 OK"@,
        Codes::SC201 => "201 Created"@,
        Codes::SC202 => "202 Accepted"@,
        Codes::SC203 => "203 Non-Authoritative Information"@,
        Codes::SC204 => "204 No Content"@,
        Codes::SC205 => "205 Reset Content"@,
        Codes::SC206 => "206 Partial Content"@,
        Codes::SC300 => "300 Multiple Choices"@,
        Codes::SC301 => "301 Moved Permanently"@,
        Codes::SC302 => "302 Found"@,
        Codes::SC303 => "303 See Other"@,
        Codes::SC304 => "304 Not Modified"@,
        Codes::SC307 => "307 Temporary Redirect"@,
        Codes::SC308 => "308 Permanent Redirect"@,
        Codes::SC400 => "400 Bad Request"@,
        Codes::SC401 => "401 Unauthorized"@,
        Codes::SC402 => "402 Payment Required"@,
        Codes::SC403 => "403 Forbidden"@,
        Codes::SC404 => "404 Not Found"@,
        Codes::SC405 => "405 Method Not Allowed"@,
        Codes::SC406 => "406 Not Acceptable"@,
        Codes::SC407 => "407 Proxy Authentication Required"@,
        Codes::SC408 => "408 Request Timeout"@,
        Codes::SC409 => "409 Conflict"@,
        Codes::SC410 => "410 Gone"@,
        Codes::SC411 => "411 Length Required"@,
        Codes::SC412 => "412 Precondition Failed"@,
        Codes::SC413 => "413 Payload Too Large"@,
        Codes::SC414 => "414 URI Too Long"@,
        Codes::SC415 => "415 Unsupported Media Type"@,
        Codes::SC416 => "416 Range Not Satisfiable"@,
        Codes::SC417 => "417 Expectation Failed"@,
        Codes::SC418 => "418 I'm a teapot"@,
        Codes::SC421 => "421 Misdirected Request"@,
        Codes::SC422 => "422 Unprocessable Entity"@,
        Codes::SC423 => "423 Locked"@,
        Codes::SC424 => "424 Failed Dependency"@,
        Codes::SC425 => "425 Too Early"@,
        Codes::SC426 => "426 Upgrade Required"@,
        Codes::SC428 => "428 Precondition Required"@,
        Codes::SC429 => "429 Too Many Requests"@,
        Codes::SC431 => "431 Request Header Fields Too Large"@,
        Codes::SC451 => "451 Unavailable For Legal Reasons"@,
        Codes::SC500 => "500 Internal Server Error"@,
        Codes::SC501 => "501 Not Implemented"@,
        Codes::SC502 => "502 Bad Gateway"@,
        Codes::SC503 => "503 Service Unavailable"@,
        Codes::SC504 => "504 Gateway Timeout"@,
        Codes::SC505 => "505 HTTP Version Not Supported"@,
        Codes::SC506 => "506 Variant Also Negotiates"@,
        Codes::SC507 => "507 Insufficient Storage"@,
        Codes::SC508 => "508 Loop Detected"@,
        Codes::SC510 => "510 Not Extended"@,
        Codes::SC511 => "511 Network Authentication Required"@,
    }
}

/// A response status.
#[derive(Clone, Copy, Debug, PartialEq, Eq, Structural)]
pub struct StatusCode(pub Codes);

impl StatusCode {
    pub fn as_str(&self) -> (r: &'static str)
        ensures
            r@ == status_text(self.0),
    {
        match self.0 {
            Codes::SC100 => "100 Continue",
            Codes::SC101 => "101 Switching Protocols",
            Codes::SC200 => "200 OK",
            Codes::SC201 => "201 Created",
            Codes::SC202 => "202 Accepted",
            Codes::SC203 => "203 Non-Authoritative Information",
            Codes::SC204 => "204 No Content",
            Codes::SC205 => "205 Reset Content",
            Codes::SC206 => "206 Partial Content",
            Codes::SC300 => "300 Multiple Choices",
            Codes::SC301 => "301 Moved Permanently",
            Codes::SC302 => "302 Found",
            Codes::SC303 => "303 See Other",
            Codes::SC304 => "304 Not Modified",
            Codes::SC307 => "307 Temporary Redirect",
            Codes::SC308 => "308 Permanent Redirect",
            Codes::SC400 => "400 Bad Request",
            Codes::SC401 => "401 Unauthorized",
            Codes::SC402 => "402 Payment Required",
            Codes::SC403 => "403 Forbidden",
            Codes::SC404 => "404 Not Found",
            Codes::SC405 => "405 Method Not Allowed",
            Codes::SC406 => "406 Not Acceptable",
            Codes::SC407 => "407 Proxy Authentication Required",
            Codes::SC408 => "408 Request Timeout",
            Codes::SC409 => "409 Conflict",
            Codes::SC410 => "410 Gone",
            Codes::SC411 => "411 Length Required",
            Codes::SC412 => "412 Precondition Failed",
            Codes::SC413 => "413 Payload Too Large",
            Codes::SC414 => "414 URI Too Long",
            Codes::SC415 => "415 Unsupported Media Type",
            Codes::SC416 => "416 Range Not Satisfiable",
            Codes::SC417 => "417 Expectation Failed",
            Codes::SC418 => "418 I'm a teapot",
            Codes::SC421 => "421 Misdirected Request",
            Codes::SC422 => "422 Unprocessable Entity",
            Codes::SC423 => "423 Locked",
            Codes::SC424 => "424 Failed Dependency",
            Codes::SC425 => "425 Too Early",
            Codes::SC426 => "426 Upgrade Required",
            Codes::SC428 => "428 Precondition Required",
            Codes::SC429 => "429 Too Many Requests",
            Codes::SC431 => "431 Request Header Fields Too Large",
            Codes::SC451 => "451 Unavailable For Legal Reasons",
            Codes::SC500 => "500 Internal Server Error",
            Codes::SC501 => "501 Not Implemented",
            Codes::SC502 => "502 Bad Gateway",
            Codes::SC503 => "503 Service Unavailable",
            Codes::SC504 => "504 Gateway Timeout",
            Codes::SC505 => "505 HTTP Version Not Supported",
            Codes::SC506 => "506 Variant Also Negotiates",
            Codes::SC507 => "507 Insufficient Storage",
            Codes::SC508 => "508 Loop Detected",
            Codes::SC510 => "510 Not Extended",
            Codes::SC511 => "511 Network Authentication Required",
        }
    }
}

/// One header line: name, colon and space, value.
pub open spec fn field_line(f: (String, String)) -> Seq<char> {
    f.0@ + ": "@ + f.1@
}

/// The first `n` header lines joined by CRLF.
pub open spec fn joined_fields(fields: Seq<(String, String)>, n: int) -> Seq<char>
    decreases n,
{
    if n <= 0 {
        Seq::empty()
    } else if n == 1 {
        field_line(fields[0])
    } else {
        joined_fields(fields, n - 1) + "\r\n"@ + field_line(fields[n - 1])
    }
}

/// `after` is `before` with the header `(key, value)` appended.
pub open spec fn pushed_field(
    before: Seq<(String, String)>,
    after: Seq<(String, String)>,
    key: Seq<char>,
    value: Seq<char>,
) -> bool {
    &&& after.len() == before.len() + 1
    &&& after.subrange(0, before.len() as int) == before
    &&& after[before.len() as int].0@ == key
    &&& after[before.len() as int].1@ == value
}

/// The header lines of a response joined by CRLF.
fn join_fields(fields: &Vec<(String, String)>) -> (r: String)
    ensures
        r@ == joined_fields(fields@, fields@.len() as int),
{
    let mut out = String::new();
    let mut i: usize = 0;
    while i < fields.len()
        invariant
            i <= fields@.len(),
            out@ == joined_fields(fields@, i as int),
        decreases fields@.len() - i,
    {
        if i > 0 {
            out.append("\r\n");
        }
        out.append(fields[i].0.as_str());
        out.append(": ");
        out.append(fields[i].1.as_str());
        proof {
            if i == 0 {
                assert(out@ =~= joined_fields(fields@, 1));
            } else {
                assert(out@ =~= joined_fields(fields@, i + 1));
            }
        }
        i += 1;
    }
    out
}

/// Status line, date, server name and header lines of a response.
pub struct ResponseHeader {
    pub version: Version,
    pub status_code: StatusCode,
    pub date: String,
    pub server: String,
    pub fields: Vec<(String, String)>,
}

impl ResponseHeader {
    /// The header block: status line, date line, server line and the header
    /// lines, each ended by CRLF.
    pub fn as_str(&self) -> (r: String)
        ensures
            r@ == version_name(self.version.0) + " "@ + status_text(self.status_code.0) + "\r\n"@
                + self.date@ + "\r\n"@ + "Server: "@ + self.server@ + "\r\n"@ + joined_fields(
                self.fields@,
                self.fields@.len() as int,
            ) + "\r\n"@,
    {
        let mut out = self.version.to_string();
        out.append(" ");
        out.append(self.status_code.as_str());
        out.append("\r\n");
        out.append(self.date.as_str());
        out.append("\r\n");
        out.append("Server: ");
        out.append(self.server.as_str());
        out.append("\r\n");
        let fields = join_fields(&self.fields);
        out.append(fields.as_str());
        out.append("\r\n");
        out
    }
}

/// A response under construction: header and body.
pub struct HTTPResponse {
    pub rsheader: ResponseHeader,
    pub body: Vec<u8>,
}

/// The text in front of a built response's body.
pub open spec fn built_head(r: HTTPResponse) -> Seq<char> {
    version_name(r.rsheader.version.0) + " "@ + status_text(r.rsheader.status_code.0) + "\r\n"@
        + joined_fields(r.rsheader.fields@, r.rsheader.fields@.len() as int) + "\r\n\r\n"@
}

impl HTTPResponse {
    /// A fresh response dated `date`: version 1.1, status 500, this server's
    /// name, no header lines and an empty body.
    pub fn new(date: String) -> (r: HTTPResponse)
        ensures
            r.rsheader.version == Version(VV::V1_1),
            r.rsheader.status_code == StatusCode(Codes::SC500),
            r.rsheader.date@ == date@,
            r.rsheader.server@ == crate::utils::SERVERS@,
            r.rsheader.fields@.len() == 0,
            r.body@.len() == 0,
    {
        HTTPResponse {
            rsheader: ResponseHeader {
                version: Version(VV::V1_1),
                status_code: StatusCode(Codes::SC500),
                date,
                server: String::from_str(crate::utils::SERVERS),
                fields: Vec::new(),
            },
            body: Vec::new(),
        }
    }

    /// Adds a content-type header line.
    pub fn ct(self, ct: ContType) -> (r: HTTPResponse)
        ensures
            pushed_field(self.rsheader.fields@, r.rsheader.fields@, "Content-Type:"@, media_type(ct.0)),
            r.rsheader.version == self.rsheader.version,
            r.rsheader.status_code == self.rsheader.status_code,
            r.rsheader.date == self.rsheader.date,
            r.rsheader.server == self.rsheader.server,
            r.body == self.body,
    {
        let ghost before = self.rsheader.fields@;
        let mut s = self;
        s.rsheader.fields.push((String::from_str("Content-Type:"), String::from_str(ct.as_str())));
        assert(s.rsheader.fields@.subrange(0, before.len() as int) =~= before);
        s
    }

    pub fn version(self, ver: Version) -> (r: HTTPResponse)
        ensures
            r.rsheader.version == ver,
            r.rsheader.status_code == self.rsheader.status_code,
            r.rsheader.date == self.rsheader.date,
            r.rsheader.server == self.rsheader.server,
            r.rsheader.fields == self.rsheader.fields,
            r.body == self.body,
    {
        let mut s = self;
        s.rsheader.version = ver;
        s
    }

    pub fn status_code(self, ver: StatusCode) -> (r: HTTPResponse)
        ensures
            r.rsheader.status_code == ver,
            r.rsheader.version == self.rsheader.version,
            r.rsheader.date == self.rsheader.date,
            r.rsheader.server == self.rsheader.server,
            r.rsheader.fields == self.rsheader.fields,
            r.body == self.body,
    {
        let mut s = self;
        s.rsheader.status_code = ver;
        s
    }

    pub fn body(self, ver: Vec<u8>) -> (r: HTTPResponse)
        ensures
            r.body == ver,
            r.rsheader.version == self.rsheader.version,
            r.rsheader.status_code == self.rsheader.status_code,
            r.rsheader.date == self.rsheader.date,
            r.rsheader.server == self.rsheader.server,
            r.rsheader.fields == self.rsheader.fields,
    {
        let mut s = self;
        s.body = ver;
        s
    }

    /// Adds a content-length header line giving the body's length in decimal.
    pub fn gen_len(self) -> (r: HTTPResponse)
        ensures
            pushed_field(
                self.rsheader.fields@,
                r.rsheader.fields@,
                "Content-Length"@,
                decimal(self.body@.len()),
            ),
            r.rsheader.version == self.rsheader.version,
            r.rsheader.status_code == self.rsheader.status_code,
            r.rsheader.date == self.rsheader.date,
            r.rsheader.server == self.rsheader.server,
            r.body == self.body,
    {
        let ghost before = self.rsheader.fields@;
        let mut s = self;
        let len = decimal_string(s.body.len() as u64);
        s.rsheader.fields.push((String::from_str("Content-Length"), len));
        assert(s.rsheader.fields@.subrange(0, before.len() as int) =~= before);
        s
    }

    /// The response as bytes: status line, header lines, an empty line, then
    /// the body.
    pub fn build(self) -> (r: Vec<u8>)
        ensures
            r@ == vstd::utf8::encode_utf8(built_head(self)) + self.body@,
    {
        let mut head = self.rsheader.version.to_string();
        head.append(" ");
        head.append(self.rsheader.status_code.as_str());
        head.append("\r\n");
        let fields = join_fields(&self.rsheader.fields);
        head.append(fields.as_str());
        head.append("\r\n\r\n");
        let mut out = vstd::slice::slice_to_vec(head.as_str().as_bytes());
        let mut body = self.body;
        out.append(&mut body);
        out
    }
}

/// The bytes of a plain-text response with version `v`, status `c`, a
/// content type, a content length and the body `text`.
pub open spec fn canned(v: VV, c: Codes, text: Seq<char>) -> Seq<u8> {
    vstd::utf8::encode_utf8(
        version_name(v) + " "@ + status_text(c) + "\r\n"@ + (("Content-Type:"@ + ": "@ + media_type(
            Formattype::Plain,
        )) + "\r\n"@ + ("Content-Length"@ + ": "@ + decimal(vstd::utf8::encode_utf8(text).len())))
            + "\r\n\r\n"@,
    ) + vstd::utf8::encode_utf8(text)
}

/// A plain-text response in version `v` with status `c` and body `text`.
fn canned_response(v: Version, c: StatusCode, text: &str, date: String) -> (r: Vec<u8>)
    ensures
        r@ == canned(v.0, c.0, text@),
{
    let body = vstd::slice::slice_to_vec(text.as_bytes());
    let resp = HTTPResponse::new(date).version(v).status_code(c).ct(ContType(Formattype::Plain)).body(
        body,
    ).gen_len();
    proof {
        let f = resp.rsheader.fields@;
        assert(f.len() == 2);
        assert(joined_fields(f, 1) == field_line(f[0]));
        assert(joined_fields(f, 2) == joined_fields(f, 1) + "\r\n"@ + field_line(f[1]));
    }
    resp.build()
}

impl HTTPResponse {
    /// The answer to a request whose method is not allowed, dated `date`.
    pub fn wrong_method(req: &HTTPRequest, date: String) -> (r: Vec<u8>)
        ensures
            r@ == canned(req.parts.version.0, Codes::SC405, "405 Method Not Allowed"@),
    {
        canned_response(req.parts.version, StatusCode(Codes::SC405), "405 Method Not Allowed", date)
    }

    /// The answer to a request for a host or path this server does not
    /// serve, dated `date`.
    pub fn misdirreq(req: &HTTPRequest, date: String) -> (r: Vec<u8>)
        ensures
            r@ == canned(
                req.parts.version.0,
                Codes::SC421,
                "421 Misdirected Request: Wrong Uri"@,
            ),
    {
        canned_response(
            req.parts.version,
            StatusCode(Codes::SC421),
            "421 Misdirected Request: Wrong Uri",
            date,
        )
    }
}

} // verus!
