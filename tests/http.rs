use fiv_net::method::{Method, MV};
use fiv_net::request::HTTPRequest;
use fiv_net::response::{Codes, HTTPResponse, StatusCode};
use fiv_net::server::ServerError;
use fiv_net::uri::{Scheme, Uri};
use fiv_net::utils::{cookie_parser, get_by_key, AllowedExtentions, ContLength, ContType, Formattype, HTTPHeader, Image, Version, VV};

#[test]
fn methods_round_trip() {
    assert_eq!(Method::from_str("GET").as_str(), "GET");
    assert!(matches!(Method::from_str("DELETE").kind(), MV::Delete));
    assert_eq!(Method::from_str("BREW").as_str(), "BREW");
    assert_eq!(Method::from_kind(MV::Trace).as_str(), "TRACE");
}

#[test]
fn content_types() {
    assert_eq!(ContType::from_str("html").as_str(), "text/html");
    assert_eq!(ContType::from_str("png").0, Formattype::Image(Image::Png));
    assert_eq!(ContType::from_str("exe").as_str(), "text/plain");
    assert_eq!(ContType(Formattype::Video).as_str(), "video/mp4");
    assert_eq!(ContLength(0).as_str(), "0");
    assert_eq!(ContLength(18446744073709551615).as_str(), "18446744073709551615");
}

#[test]
fn versions() {
    assert_eq!(Version(VV::V1_1).to_string(), "HTTP/1.1");
    assert_eq!(Version::from_string("HTTP/2.0".to_string()).unwrap(), Version(VV::V2_0));
    assert!(Version::from_string("HTTP/1.2".to_string()).is_err());
}

#[test]
fn header_keys_and_lookup() {
    assert!(matches!(HTTPHeader::key_parse("Cookie"), AllowedExtentions::Cookie));
    assert!(matches!(HTTPHeader::key_parse("Set-Cookie"), AllowedExtentions::SetCookie));
    match HTTPHeader::key_parse("X-Thing") {
        AllowedExtentions::Unknown(k) => assert_eq!(k, "X-Thing"),
        _ => panic!("unknown header expected"),
    }
    let v = vec![
        ("a".to_string(), "1".to_string()),
        ("sessionId".to_string(), "abc".to_string()),
        ("sessionId".to_string(), "def".to_string()),
    ];
    assert_eq!(get_by_key(v.clone(), "sessionId"), Ok(("sessionId".to_string(), "abc".to_string())));
    assert_eq!(get_by_key(v, "none"), Err(()));
}

#[test]
fn status_and_errors() {
    assert_eq!(StatusCode(Codes::SC418).as_str(), "418 I'm a teapot");
    assert_eq!(StatusCode(Codes::SC200).as_str(), "200 OK");
    assert_eq!(ServerError(127).reason(), "Connection Error");
    assert_eq!(ServerError(3).reason(), "Error not defined");
    assert_eq!(Scheme::from_str("https").as_str(), "HTTPS");
    assert_eq!(Scheme::from_str("").as_str(), "Unknown");
    assert_eq!(Scheme::from_str("ftp").as_str(), "ftp");
}

#[test]
fn response_bytes() {
    let r = HTTPResponse::new("Date: today".to_string())
        .version(Version(VV::V1_0))
        .status_code(StatusCode(Codes::SC405))
        .ct(ContType(Formattype::Plain))
        .body(b"405 Method Not Allowed".to_vec())
        .gen_len();
    assert_eq!(r.rsheader.as_str(), "HTTP/1.0 405 Method Not Allowed\r\nDate: today\r\nServer: FivServ/2.0.0\r\nContent-Type:: text/plain\r\nContent-Length: 22\r\n");
    let bytes = r.build();
    assert_eq!(
        String::from_utf8(bytes).unwrap(),
        "HTTP/1.0 405 Method Not Allowed\r\nContent-Type:: text/plain\r\nContent-Length: 22\r\n\r\n405 Method Not Allowed"
    );
}

#[test]
fn cookies_split_at_semicolons() {
    let pairs = cookie_parser("  a=1;sessionId=abc=d;flag; b=2 \r\n".to_string());
    assert_eq!(
        pairs,
        vec![
            ("a".to_string(), "1".to_string()),
            ("sessionId".to_string(), "abc=d".to_string()),
            (" b".to_string(), "2".to_string()),
        ]
    );
    assert!(cookie_parser("   ".to_string()).is_empty());
}

#[test]
fn uri_full_form() {
    let mut u = Uri::new();
    u.from_string("https://user:pw@example.org:8080/a/b?x=1&y&z=2#frag".to_string());
    assert!(matches!(u.scheme, Scheme::HTTPS));
    let creds = u.authority.creds.as_ref().unwrap();
    assert_eq!(creds.username, "user");
    assert_eq!(creds.password.as_deref(), Some("pw"));
    assert_eq!(u.authority.host, "example.org");
    assert_eq!(u.authority.port, 8080);
    assert_eq!(u.path, "a/b");
    assert_eq!(u.query.len(), 2);
    assert_eq!((u.query[0].key.as_str(), u.query[0].value.as_str()), ("x", "1"));
    assert_eq!((u.query[1].key.as_str(), u.query[1].value.as_str()), ("z", "2"));
    assert_eq!(u.fragment, "frag");
}

#[test]
fn uri_without_authority_or_port() {
    let mut u = Uri::new();
    u.from_string("index.html".to_string());
    assert!(matches!(u.scheme, Scheme::Unknown));
    assert_eq!(u.authority.port, 80);
    assert_eq!(u.authority.host, "");
    assert_eq!(u.path, "index.html");
    let mut v = Uri::new();
    v.from_string("http://host:99999/p".to_string());
    assert_eq!(v.authority.host, "host");
    assert_eq!(v.authority.port, 0);
    assert_eq!(v.path, "p");
    let mut w = Uri::new();
    w.from_string("localhost/".to_string());
    assert_eq!(w.authority.host, "localhost");
    assert_eq!(w.authority.port, 0);
    assert_eq!(w.path, "");
}

#[test]
fn canned_error_responses() {
    let mut req = HTTPRequest::new();
    req.parts.version = Version(VV::V2_0);
    let bytes = HTTPResponse::wrong_method(&req, "Date: now".to_string());
    assert_eq!(
        String::from_utf8(bytes).unwrap(),
        "HTTP/2.0 405 Method Not Allowed\r\nContent-Type:: text/plain\r\nContent-Length: 22\r\n\r\n405 Method Not Allowed"
    );
    let bytes = HTTPResponse::misdirreq(&HTTPRequest::new(), "Date: now".to_string());
    assert_eq!(
        String::from_utf8(bytes).unwrap(),
        "HTTP/1.1 421 Misdirected Request\r\nContent-Type:: text/plain\r\nContent-Length: 34\r\n\r\n421 Misdirected Request: Wrong Uri"
    );
}
