use vstd::prelude::*;
use crate::text::{chars_of, subrange_chars, string_from_chars, opt_view, parse_unsigned_spec, parse_unsigned};

verus! {

/// The parts of a URI that the target of a CONNECT request is read
/// from: its host, its port and its authority, as `http::Uri` gives them.
pub struct UriParts {
    pub host: Option<String>,
    pub port: Option<u16>,
    pub authority: Option<String>,
}

/// The abstract value of `UriParts`.
pub open spec fn uri_parts_view(p: UriParts) -> (Option<Seq<char>>, Option<u16>, Option<Seq<char>>) {
    (opt_view(p.host), p.port, opt_view(p.authority))
}

/// What parsing `text` as an `http::Uri` gives: `None` when it does not
/// parse, else the URI's host, port and authority.
pub uninterp spec fn uri_parts_of(text: Seq<char>) -> Option<(Option<Seq<char>>, Option<u16>, Option<Seq<char>>)>;

/// `str::parse::<http::Uri>`, the URI's `host`, `port_u16` and
/// `authority` copied out as text.
#[verifier::external_body]
fn parse_uri(text: &str) -> (r: Option<UriParts>)
    ensures
        match r {
            Some(p) => uri_parts_of(text@) == Some(uri_parts_view(p)),
            None => uri_parts_of(text@) is None,
        },
{
    match text.parse::<http::Uri>() {
        Ok(u) => Some(UriParts {
            host: u.host().map(str::to_string),
            port: u.port_u16(),
            authority: u.authority().map(|a| a.as_str().to_string()),
        }),
        Err(_) => None,
    }
}

impl UriParts {
    /// The parts of `text` read as a URI by `http`; `None` when it is not
    /// one.
    pub fn parse(text: &str) -> (r: Option<UriParts>)
        ensures
            match r {
                Some(p) => uri_parts_of(text@) == Some(uri_parts_view(p)),
                None => uri_parts_of(text@) is None,
            },
    {
        parse_uri(text)
    }
}

/// What `str::parse::<u16>` gives (see `parse_unsigned_spec`).
pub open spec fn parse_u16_spec(s: Seq<char>) -> Option<u16> {
    match parse_unsigned_spec(s, 65535) {
        Some(v) => Some(v as u16),
        None => None,
    }
}

/// Parses a port number as `str::parse::<u16>` does.
pub fn parse_u16(s: &Vec<char>) -> (r: Option<u16>)
    ensures
        r == parse_u16_spec(s@),
{
    match parse_unsigned(s, 65535) {
        Some(v) => Some(v as u16),
        None => None,
    }
}

/// The position of the last `c` in `s`, if any.
pub open spec fn rfind_char_spec(s: Seq<char>, c: char) -> Option<int>
    decreases s.len(),
{
    if s.len() == 0 {
        None
    } else if s.last() == c {
        Some(s.len() - 1)
    } else {
        rfind_char_spec(s.drop_last(), c)
    }
}

proof fn lemma_rfind(s: Seq<char>, c: char)
    ensures
        match rfind_char_spec(s, c) {
            Some(i) => 0 <= i < s.len() && s[i] == c,
            None => true,
        },
    decreases s.len(),
{
    if s.len() > 0 && s.last() != c {
        lemma_rfind(s.drop_last(), c);
    }
}

/// The host and port a CONNECT request targets, from the parts of its
/// URI: the host with its port, or 443 without one; without a host, the
/// authority split at its last `:` (443 when the port does not parse), or
/// the whole authority with port 443; without either, `localhost:443`.
pub open spec fn connect_target_spec(host: Option<Seq<char>>, port: Option<u16>, authority: Option<Seq<char>>) -> (Seq<char>, u16) {
    match host {
        Some(h) => (h, match port { Some(p) => p, None => 443u16 }),
        None => match authority {
            Some(s) => match rfind_char_spec(s, ':') {
                Some(i) => (s.take(i), match parse_u16_spec(s.skip(i + 1)) { Some(p) => p, None => 443u16 }),
                None => (s, 443u16),
            },
            None => ("localhost"@, 443u16),
        },
    }
}

/// The target of a CONNECT request from its URI's parts (see
/// `connect_target_spec`).
pub fn connect_target(host: &Option<String>, port: Option<u16>, authority: &Option<String>) -> (r: (String, u16))
    ensures
        (r.0@, r.1) == connect_target_spec(opt_view(*host), port, opt_view(*authority)),
{
    match host {
        Some(h) => {
            let p = match port {
                Some(p) => p,
                None => 443,
            };
            (h.clone(), p)
        },
        None => match authority {
            Some(a) => {
                let v = chars_of(a.as_str());
                let mut i: usize = v.len();
                assert(v@.take(v.len() as int) =~= v@);
                while i > 0 && v[i - 1] != ':'
                    invariant
                        i <= v.len(),
                        rfind_char_spec(v@, ':') == rfind_char_spec(v@.take(i as int), ':'),
                    decreases i,
                {
                    assert(v@.take(i as int).drop_last() =~= v@.take(i - 1));
                    i = i - 1;
                }
                let found: Option<usize> = if i > 0 { Some(i - 1) } else { None };
                proof {
                    lemma_rfind(v@, ':');
                    if i > 0 {
                        assert(v@.take(i as int).last() == ':');
                    }
                }
                match found {
                    Some(c) => {
                        let host_part = subrange_chars(&v, 0, c);
                        let port_part = subrange_chars(&v, c + 1, v.len());
                        assert(port_part@ =~= v@.skip(c + 1));
                        let p = match parse_u16(&port_part) {
                            Some(p) => p,
                            None => 443,
                        };
                        (string_from_chars(&host_part), p)
                    },
                    None => (a.clone(), 443),
                }
            },
            None => (String::from_str("localhost"), 443),
        },
    }
}

/// The host and port a CONNECT request targets, from the parts of its
/// URI (see `connect_target_spec`).
pub fn parse_connect_authority(uri: &UriParts) -> (r: (String, u16))
    ensures
        (r.0@, r.1) == connect_target_spec(opt_view(uri.host), uri.port, opt_view(uri.authority)),
{
    connect_target(&uri.host, uri.port, &uri.authority)
}

} // verus!
