use vstd::prelude::*;
use crate::text::{
    chars_of, chars_eq, find_char, find_char_spec, has_prefix, has_suffix, trim_start_matches_spec,
    trim_start_matches_chars, subrange_chars, starts_with_chars, ends_with_chars,
};

verus! {

/// A URL with its leading `http://` and then `https://` prefixes removed.
pub open spec fn url_without_scheme(url: Seq<char>) -> Seq<char> {
    trim_start_matches_spec(trim_start_matches_spec(url, "http://"@), "https://"@)
}

/// The authority of a URL without scheme: everything before the first `/`.
pub open spec fn url_authority(u: Seq<char>) -> Seq<char> {
    match find_char_spec(u, '/') {
        Some(i) => u.take(i),
        None => u,
    }
}

/// An authority without its port: everything before the first `:`.
pub open spec fn without_port(a: Seq<char>) -> Seq<char> {
    match find_char_spec(a, ':') {
        Some(i) => a.take(i),
        None => a,
    }
}

/// The host of a URL without scheme: its authority without the port.
pub open spec fn url_host(u: Seq<char>) -> Seq<char> {
    without_port(url_authority(u))
}

/// The path of a URL without scheme: from the first `/` on, or `/` when
/// there is none.
pub open spec fn url_path(u: Seq<char>) -> Seq<char> {
    match find_char_spec(u, '/') {
        Some(i) => u.skip(i),
        None => "/"@,
    }
}

/// Whether a host lies in a cookie's domain (its leading dots dropped):
/// the same name, a subdomain of it, or any host when the domain is empty.
pub open spec fn domain_matches(host: Seq<char>, domain: Seq<char>) -> bool {
    let d = trim_start_matches_spec(domain, "."@);
    host == d || has_suffix(host, "."@ + d) || d.len() == 0
}

/// Whether a cookie with `domain` and `path` goes with `url`: the URL's
/// host (its port left out) lies in the domain and its path begins with
/// the cookie's path.
pub open spec fn cookie_matches_spec(domain: Seq<char>, path: Seq<char>, url: Seq<char>) -> bool {
    let u = url_without_scheme(url);
    domain_matches(url_host(u), domain) && has_prefix(url_path(u), path)
}

/// Whether a cookie with the given domain and path goes with `url_str`
/// (see `cookie_matches_spec`).
pub fn cookie_matches_url(domain: &str, path: &str, url_str: &str) -> (r: bool)
    ensures
        r == cookie_matches_spec(domain@, path@, url_str@),
{
    proof {
        reveal_strlit("http://");
        reveal_strlit("https://");
        reveal_strlit(".");
        reveal_strlit("/");
    }
    let raw = chars_of(url_str);
    let a = trim_start_matches_chars(&raw, &chars_of("http://"));
    let u = trim_start_matches_chars(&a, &chars_of("https://"));
    let (authority, url_path_v) = match find_char(&u, '/') {
        Some(i) => (subrange_chars(&u, 0, i), subrange_chars(&u, i, u.len())),
        None => (subrange_chars(&u, 0, u.len()), chars_of("/")),
    };
    assert(authority@ =~= url_authority(u@));
    let host = match find_char(&authority, ':') {
        Some(i) => subrange_chars(&authority, 0, i),
        None => subrange_chars(&authority, 0, authority.len()),
    };
    assert(host@ =~= url_host(u@));
    assert(url_path_v@ =~= url_path(u@));
    let d = trim_start_matches_chars(&chars_of(domain), &chars_of("."));
    let mut dotted: Vec<char> = Vec::new();
    dotted.push('.');
    let mut j: usize = 0;
    while j < d.len()
        invariant
            j <= d.len(),
            dotted@ == seq!['.'] + d@.take(j as int),
        decreases d.len() - j,
    {
        dotted.push(d[j]);
        j = j + 1;
        assert(dotted@ =~= seq!['.'] + d@.take(j as int));
    }
    assert(d@.take(d.len() as int) =~= d@);
    assert(dotted@ =~= "."@ + d@);
    let domain_match = chars_eq(&host, &d) || ends_with_chars(&host, &dotted) || d.len() == 0;
    let path_match = starts_with_chars(&url_path_v, &chars_of(path));
    domain_match && path_match
}

} // verus!
