use vstd::prelude::*;
use vstd::string::*;

use crate::text::{
    keyed_pairs, pairs_of, parse_u16, parse_u16_spec, split_all, split_once, split_once_char,
    split_once_str, split_once_sub, str_eq,
};

verus! {

pub type Port = u16;

pub type Host = String;

pub type Password = String;

pub type Username = String;

pub type Path = String;

pub type Fragment = String;

/// Credentials in front of a host.
pub struct UserInfo {
    pub username: Username,
    pub password: Option<Password>,
}

/// Credentials, host and port of a URI.
pub struct Authority {
    pub creds: Option<UserInfo>,
    pub host: Host,
    pub port: Port,
}

/// One `key=value` pair of a query.
pub struct Query {
    pub key: String,
    pub value: String,
}

pub type Querys = Vec<Query>;

/// The scheme of a URI.
pub enum Scheme {
    HTTP,
    HTTPS,
    Other(String),
    Unknown,
}

/// A parsed URI.
pub struct Uri {
    pub scheme: Scheme,
    pub authority: Authority,
    pub path: Path,
    pub query: Querys,
    pub fragment: Fragment,
}

/// `sc` is the scheme the name `name` stands for.
pub open spec fn scheme_named(sc: Scheme, name: Seq<char>) -> bool {
    if name == "http"@ {
        sc is HTTP
    } else if name == "https"@ {
        sc is HTTPS
    } else if name.len() == 0 {
        sc is Unknown
    } else {
        sc matches Scheme::Other(s) && s@ == name
    }
}

/// Credentials as user name and optional password.
pub open spec fn creds_view(c: Option<UserInfo>) -> Option<(Seq<char>, Option<Seq<char>>)> {
    match c {
        Some(u) => Some(
            (
                u.username@,
                match u.password {
                    Some(p) => Some(p@),
                    None => None,
                },
            ),
        ),
        None => None,
    }
}

/// The credentials written before `@`: a user name, then a password after `:`.
pub open spec fn creds_of(userinfo: Seq<char>) -> Option<(Seq<char>, Option<Seq<char>>)> {
    match split_once(userinfo, ':') {
        Some((u, p)) => Some((u, Some(p))),
        None => Some((userinfo, None)),
    }
}

/// Credentials, host and port of an authority; a missing or unreadable port is 0.
pub open spec fn authority_of(auth: Seq<char>) -> (
    Option<(Seq<char>, Option<Seq<char>>)>,
    Seq<char>,
    u16,
) {
    let (creds, hostport) = match split_once(auth, '@') {
        Some((ui, hp)) => (creds_of(ui), hp),
        None => (None, auth),
    };
    match split_once(hostport, ':') {
        Some((h, p)) => (
            creds,
            h,
            match parse_u16_spec(p) {
                Some(v) => v,
                None => 0,
            },
        ),
        None => (creds, hostport, 0),
    }
}

/// What follows the scheme separator, or all of `s` when there is none.
pub open spec fn after_scheme(s: Seq<char>) -> Seq<char> {
    match split_once_sub(s, "://"@) {
        Some((_, r)) => r,
        None => s,
    }
}

/// What follows the authority, or all that follows the scheme when no `/` does.
pub open spec fn after_authority(s: Seq<char>) -> Seq<char> {
    match split_once(after_scheme(s), '/') {
        Some((_, e)) => e,
        None => after_scheme(s),
    }
}

/// Path and query part: what follows the authority, up to a `#`.
pub open spec fn before_fragment(s: Seq<char>) -> Seq<char> {
    match split_once(after_authority(s), '#') {
        Some((a, _)) => a,
        None => after_authority(s),
    }
}

/// The fragment: what follows the first `#` after the authority.
pub open spec fn fragment_of(s: Seq<char>) -> Seq<char> {
    match split_once(after_authority(s), '#') {
        Some((_, f)) => f,
        None => Seq::empty(),
    }
}

/// `qs` holds the `key=value` pairs of the query text `q`, split at `&`.
pub open spec fn queries_of(qs: Seq<Query>, q: Seq<char>) -> bool {
    let pairs = keyed_pairs(split_all(q, '&'), split_all(q, '&').len() as int);
    &&& qs.len() == pairs.len()
    &&& forall|k: int|
        0 <= k < qs.len() ==> (#[trigger] qs[k]).key@ == pairs[k].0 && qs[k].value@ == pairs[k].1
}

impl Scheme {
    /// The scheme a name stands for: `http`, `https`, none for the empty
    /// name, and any other kept verbatim.
    pub fn from_str(src: &str) -> (r: Scheme)
        ensures
            scheme_named(r, src@),
    {
        proof {
            reveal_strlit("http");
            reveal_strlit("https");
            assert("http"@.len() == 4 && "https"@.len() == 5);
        }
        if str_eq(src, "http") {
            Scheme::HTTP
        } else if str_eq(src, "https") {
            Scheme::HTTPS
        } else if src.unicode_len() == 0 {
            Scheme::Unknown
        } else {
            Scheme::Other(src.to_owned())
        }
    }

    /// The scheme's display name.
    pub fn as_str(&self) -> (r: &str)
        ensures
            r@ == match self {
                Scheme::HTTP => "HTTP"@,
                Scheme::HTTPS => "HTTPS"@,
                Scheme::Unknown => "Unknown"@,
                Scheme::Other(e) => e@,
            },
    {
        match self {
            Scheme::HTTP => "HTTP",
            Scheme::HTTPS => "HTTPS",
            Scheme::Unknown => "Unknown",
            Scheme::Other(e) => e.as_str(),
        }
    }
}

impl Uri {
    /// An empty URI: unknown scheme, no credentials, empty host on port 80,
    /// empty path, no queries and no fragment.
    pub fn new() -> (r: Uri)
        ensures
            r.scheme is Unknown,
            r.authority.creds is None,
            r.authority.host@.len() == 0,
            r.authority.port == 80,
            r.path@.len() == 0,
            r.query@.len() == 0,
            r.fragment@.len() == 0,
    {
        Uri {
            scheme: Scheme::Unknown,
            authority: Authority { creds: None, host: String::new(), port: 80 },
            path: String::new(),
            query: Vec::new(),
            fragment: String::new(),
        }
    }

    /// Reads a URI: scheme before `://`, then credentials, host and port up to
    /// the first `/`, then the path, the query after `?` and the fragment
    /// after `#`. A URI without a query keeps the queries it had.
    pub fn from_string(&mut self, src: String)
        ensures
            match split_once_sub(src@, "://"@) {
                Some((name, _)) => scheme_named(final(self).scheme, name),
                None => final(self).scheme is Unknown,
            },
            match split_once(after_scheme(src@), '/') {
                Some((auth, _)) => (
                    creds_view(final(self).authority.creds),
                    final(self).authority.host@,
                    final(self).authority.port,
                ) == authority_of(auth),
                None => {
                    &&& final(self).authority.creds is None
                    &&& final(self).authority.host@.len() == 0
                    &&& final(self).authority.port == 80
                },
            },
            final(self).fragment@ == fragment_of(src@),
            match split_once(before_fragment(src@), '?') {
                Some((path, q)) => final(self).path@ == path && queries_of(final(self).query@, q),
                None => final(self).path@ == before_fragment(src@) && final(self).query == old(
                    self,
                ).query,
            },
    {
        let rest1: String;
        match split_once_str(src.as_str(), "://") {
            Some((name, rest)) => {
                self.scheme = Scheme::from_str(name.as_str());
                rest1 = rest;
            },
            None => {
                self.scheme = Scheme::Unknown;
                rest1 = src;
            },
        }
        let rest2: String;
        match split_once_char(rest1.as_str(), '/') {
            Some((auth, exe)) => {
                let hostport: String;
                match split_once_char(auth.as_str(), '@') {
                    Some((ui, hp)) => {
                        self.authority.creds = match split_once_char(ui.as_str(), ':') {
                            Some((u, p)) => Some(UserInfo { username: u, password: Some(p) }),
                            None => Some(UserInfo { username: ui, password: None }),
                        };
                        hostport = hp;
                    },
                    None => {
                        self.authority.creds = None;
                        hostport = auth;
                    },
                }
                match split_once_char(hostport.as_str(), ':') {
                    Some((h, p)) => {
                        self.authority.port = match parse_u16(p.as_str()) {
                            Some(v) => v,
                            None => 0,
                        };
                        self.authority.host = h;
                    },
                    None => {
                        self.authority.port = 0;
                        self.authority.host = hostport;
                    },
                }
                rest2 = exe;
            },
            None => {
                self.authority = Authority { creds: None, host: String::new(), port: 80 };
                rest2 = rest1;
            },
        }
        let rest3: String;
        match split_once_char(rest2.as_str(), '#') {
            Some((a, f)) => {
                self.fragment = f;
                rest3 = a;
            },
            None => {
                self.fragment = String::new();
                rest3 = rest2;
            },
        }
        match split_once_char(rest3.as_str(), '?') {
            Some((path, q)) => {
                self.path = path;
                let pairs = pairs_of(q.as_str(), '&');
                let mut queries: Vec<Query> = Vec::new();
                let mut i: usize = 0;
                while i < pairs.len()
                    invariant
                        i <= pairs@.len(),
                        queries@.len() == i,
                        forall|k: int|
                            0 <= k < i ==> (#[trigger] queries@[k]).key@ == pairs@[k].0@
                                && queries@[k].value@ == pairs@[k].1@,
                    decreases pairs@.len() - i,
                {
                    let key = pairs[i].0.clone();
                    let value = pairs[i].1.clone();
                    queries.push(Query { key, value });
                    i += 1;
                }
                self.query = queries;
            },
            None => {
                self.path = rest3;
            },
        }
    }
}

} // verus!
