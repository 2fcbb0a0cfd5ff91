use vstd::prelude::*;
use vstd::string::*;

use crate::text::{decimal, decimal_string, keyed_pairs, pairs_of, split_all, str_eq, trim, trim_ws};

verus! {

/// Name this server gives itself in responses.
pub const SERVERS: &'static str = "FivServ/2.0.0";

/// A body length header value.
#[derive(Clone, Copy, Debug)]
pub struct ContLength(pub u64);

impl ContLength {
    /// The length in decimal.
    pub fn as_str(&self) -> (r: String)
        ensures
            r@ == decimal(self.0 as nat),
    {
        decimal_string(self.0)
    }
}

/// Image-like media formats.
#[derive(Clone, Copy, Debug, PartialEq, Eq, Structural)]
pub enum Image {
    Pdf,
    Jpeg,
    Png,
}

/// Media formats a response body can have.
#[derive(Clone, Copy, Debug, PartialEq, Eq, Structural)]
pub enum Formattype {
    Plain,
    JSON,
    Xml,
    JS,
    HTML,
    CSS,
    Image(Image),
    Video,
}

/// The media type of a format.
pub open spec fn media_type(f: Formattype) -> Seq<char> {
    match f {
        Formattype::HTML => "text/html"@,
        Formattype::CSS => "text/css"@,
        Formattype::JS => "application/javascript"@,
        Formattype::Plain => "text/plain"@,
        Formattype::JSON => "application/json"@,
        Formattype::Xml => "application/xml"@,
        Formattype::Image(Image::Pdf) => "application/pdf"@,
        Formattype::Image(Image::Jpeg) => "image/jpeg"@,
        Formattype::Image(Image::Png) => "image/png"@,
        Formattype::Video => "video/mp4"@,
    }
}

/// The format a file extension stands for; unknown extensions are plain text.
pub open spec fn format_of_extension(ext: Seq<char>) -> Formattype {
    if ext == "html"@ {
        Formattype::HTML
    } else if ext == "css"@ {
        Formattype::CSS
    } else if ext == "js"@ {
        Formattype::JS
    } else if ext == "txt"@ {
        Formattype::Plain
    } else if ext == "json"@ {
        Formattype::JSON
    } else if ext == "xml"@ {
        Formattype::Xml
    } else if ext == "pdf"@ {
        Formattype::Image(Image::Pdf)
    } else if ext == "jpeg"@ {
        Formattype::Image(Image::Jpeg)
    } else if ext == "png"@ {
        Formattype::Image(Image::Png)
    } else if ext == "mp4"@ {
        Formattype::Video
    } else {
        Formattype::Plain
    }
}

/// The content type of a response body.
#[derive(Clone, Copy, Debug, PartialEq, Eq, Structural)]
pub struct ContType(pub Formattype);

impl ContType {
    pub fn as_str(&self) -> (r: &'static str)
        ensures
            r@ == media_type(self.0),
    {
        match self.0 {
            Formattype::HTML => "text/html",
            Formattype::CSS => "text/css",
            Formattype::JS => "application/javascript",
            Formattype::Plain => "text/plain",
            Formattype::JSON => "application/json",
            Formattype::Xml => "application/xml",
            Formattype::Image(Image::Pdf) => "application/pdf",
            Formattype::Image(Image::Jpeg) => "image/jpeg",
            Formattype::Image(Image::Png) => "image/png",
            Formattype::Video => "video/mp4",
        }
    }

    /// The content type of a file extension.
    pub fn from_str(path: &str) -> (r: ContType)
        ensures
            r.0 == format_of_extension(path@),
    {
        ContType(
            if str_eq(path, "html") {
                Formattype::HTML
            } else if str_eq(path, "css") {
                Formattype::CSS
            } else if str_eq(path, "js") {
                Formattype::JS
            } else if str_eq(path, "txt") {
                Formattype::Plain
            } else if str_eq(path, "json") {
                Formattype::JSON
            } else if str_eq(path, "xml") {
                Formattype::Xml
            } else if str_eq(path, "pdf") {
                Formattype::Image(Image::Pdf)
            } else if str_eq(path, "jpeg") {
                Formattype::Image(Image::Jpeg)
            } else if str_eq(path, "png") {
                Formattype::Image(Image::Png)
            } else if str_eq(path, "mp4") {
                Formattype::Video
            } else {
                Formattype::Plain
            },
        )
    }
}

/// Protocol versions.
#[derive(Clone, Copy, Debug, PartialEq, Eq, Structural)]
pub enum VV {
    V0_9,
    V1_0,
    V1_1,
    V2_0,
    V3_0,
}

/// The version's name on the request and status lines.
pub open spec fn version_name(v: VV) -> Seq<char> {
    match v {
        VV::V0_9 => "HTTP/0.9"@,
        VV::V1_0 => "HTTP/1.0"@,
        VV::V1_1 => "HTTP/1.1"@,
        VV::V2_0 => "HTTP/2.0"@,
        VV::V3_0 => "HTTP/3.0"@,
    }
}

/// A name that is no known protocol version.
#[derive(Clone, Copy, Debug, PartialEq, Eq, Structural)]
pub struct VersionErr {}

/// A protocol version.
#[derive(Clone, Copy, Debug, PartialEq, Eq, Structural)]
pub struct Version(pub VV);

impl Version {
    pub fn to_string(&self) -> (r: String)
        ensures
            r@ == version_name(self.0),
    {
        match self.0 {
            VV::V0_9 => String::from_str("HTTP/0.9"),
            VV::V1_0 => String::from_str("HTTP/1.0"),
            VV::V1_1 => String::from_str("HTTP/1.1"),
            VV::V2_0 => String::from_str("HTTP/2.0"),
            VV::V3_0 => String::from_str("HTTP/3.0"),
        }
    }

    /// The version a name stands for; a name of no version is refused.
    pub fn from_string(src: String) -> (r: Result<Version, VersionErr>)
        ensures
            match r {
                Ok(v) => version_name(v.0) == src@,
                Err(_) => forall|v: VV| version_name(v) != src@,
            },
    {
        proof {
            reveal_strlit("HTTP/0.9");
            reveal_strlit("HTTP/1.0");
            reveal_strlit("HTTP/1.1");
            reveal_strlit("HTTP/2.0");
            reveal_strlit("HTTP/3.0");
        }
        let s = src.as_str();
        if str_eq(s, "HTTP/0.9") {
            Ok(Version(VV::V0_9))
        } else if str_eq(s, "HTTP/1.0") {
            Ok(Version(VV::V1_0))
        } else if str_eq(s, "HTTP/1.1") {
            Ok(Version(VV::V1_1))
        } else if str_eq(s, "HTTP/2.0") {
            Ok(Version(VV::V2_0))
        } else if str_eq(s, "HTTP/3.0") {
            Ok(Version(VV::V3_0))
        } else {
            proof {
                assert forall|v: VV| version_name(v) != src@ by {
                    match v {
                        VV::V0_9 => {},
                        VV::V1_0 => {},
                        VV::V1_1 => {},
                        VV::V2_0 => {},
                        VV::V3_0 => {},
                    }
                }
            }
            Err(VersionErr {})
        }
    }
}

/// The `key=value` pairs of a cookie header: the value without surrounding
/// white space is split at every `;`, and each piece holding a `=` is split
/// at its first one; other pieces are skipped.
pub fn cookie_parser(src: String) -> (r: Vec<(String, String)>)
    ensures
        r@.len() == keyed_pairs(split_all(trim_ws(src@), ';'), split_all(trim_ws(src@), ';').len() as int).len(),
        forall|k: int|
            0 <= k < r@.len() ==> (#[trigger] r@[k]).0@ == keyed_pairs(
                split_all(trim_ws(src@), ';'),
                split_all(trim_ws(src@), ';').len() as int,
            )[k].0 && r@[k].1@ == keyed_pairs(
                split_all(trim_ws(src@), ';'),
                split_all(trim_ws(src@), ';').len() as int,
            )[k].1,
{
    let t = trim(src.as_str());
    pairs_of(t.as_str(), ';')
}

/// Index of the first pair whose key is `key`, if any.
pub open spec fn first_with_key(v: Seq<(String, String)>, key: Seq<char>, i: int) -> bool {
    &&& 0 <= i < v.len()
    &&& v[i].0@ == key
    &&& forall|j: int| 0 <= j < i ==> (#[trigger] v[j]).0@ != key
}

/// The first pair whose key is `s`.
pub fn get_by_key(v: Vec<(String, String)>, s: &str) -> (r: Result<(String, String), ()>)
    ensures
        match r {
            Ok(e) => exists|i: int| first_with_key(v@, s@, i) && e.0@ == v@[i].0@ && e.1@ == v@[i].1@,
            Err(_) => forall|j: int| 0 <= j < v@.len() ==> (#[trigger] v@[j]).0@ != s@,
        },
{
    let mut i: usize = 0;
    while i < v.len()
        invariant
            i <= v@.len(),
            forall|j: int| 0 <= j < i ==> (#[trigger] v@[j]).0@ != s@,
        decreases v@.len() - i,
    {
        if str_eq(v[i].0.as_str(), s) {
            let key = v[i].0.clone();
            let value = v[i].1.clone();
            assert(first_with_key(v@, s@, i as int));
            return Ok((key, value));
        }
        i += 1;
    }
    Err(())
}

/// Header names this server knows; any other is kept verbatim.
#[derive(Clone, Debug)]
pub enum AllowedExtentions {
    Unknown(String),
    SetCookie,
    Cookie,
    Lang,
}

/// One request header.
#[derive(Clone, Debug)]
pub struct HTTPHeader {
    pub key: AllowedExtentions,
    pub value: String,
}

impl HTTPHeader {
    /// The header a name stands for.
    pub fn key_parse(key: &str) -> (r: AllowedExtentions)
        ensures
            key@ == "Lang"@ ==> r is Lang,
            key@ == "Set-Cookie"@ ==> r is SetCookie,
            key@ == "Cookie"@ ==> r is Cookie,
            key@ != "Lang"@ && key@ != "Set-Cookie"@ && key@ != "Cookie"@ ==> (r matches AllowedExtentions::Unknown(k) && k@ == key@),
    {
        proof {
            reveal_strlit("Lang");
            reveal_strlit("Set-Cookie");
            reveal_strlit("Cookie");
            assert("Lang"@.len() == 4 && "Set-Cookie"@.len() == 10 && "Cookie"@.len() == 6);
        }
        if str_eq(key, "Lang") {
            AllowedExtentions::Lang
        } else if str_eq(key, "Set-Cookie") {
            AllowedExtentions::SetCookie
        } else if str_eq(key, "Cookie") {
            AllowedExtentions::Cookie
        } else {
            AllowedExtentions::Unknown(key.to_owned())
        }
    }
}

} // verus!
