//! The OpenAPI description names the server it is served from: the local
//! Spin runtime, or the production host it was forwarded from.
use vstd::prelude::*;
use crate::parse::{decimal_text, u64_text};

verus! {

/// What `url::Url::parse` reads from a text, given as its `scheme()`,
/// `host_str()` and `port()`; `None` where it rejects the text.
pub uninterp spec fn url_parts(s: Seq<char>) -> Option<(Seq<char>, Option<Seq<char>>, Option<u16>)>;

/// Calls `url::Url::parse` and reads the scheme, `host_str` and `port` of
/// the result. The contract names the result through `url_parts`; how URLs
/// are parsed, and which ports count as default (and so are absent), is
/// left to the url crate.
#[verifier::external_body]
fn parse_url_parts(s: &str) -> (r: Option<(String, Option<String>, Option<u16>)>)
    ensures
        match r {
            Some((scheme, host, port)) => url_parts(s@) == Some(
                (
                    scheme@,
                    match host {
                        Some(h) => Some(h@),
                        None => None,
                    },
                    port,
                ),
            ),
            None => url_parts(s@) is None,
        },
{
    match url::Url::parse(s) {
        Ok(u) => Some((u.scheme().to_string(), u.host_str().map(|h| h.to_string()), u.port())),
        Err(_) => None,
    }
}

/// The server the description names: for the local runtime (the request
/// carries `spin-client-addr`), `{scheme}://{host}:{port}/` of the
/// `spin-full-url` header; otherwise `https://{x-forwarded-host}/`. `None`
/// where the header needed is missing, the URL does not parse, or it names
/// no host or no explicit port.
pub open spec fn server_info_spec(
    is_local: bool,
    full_url: Option<Seq<char>>,
    forwarded_host: Option<Seq<char>>,
) -> Option<(Seq<char>, Seq<char>)> {
    if is_local {
        match full_url {
            Some(u) => match url_parts(u) {
                Some((scheme, Some(host), Some(port))) => Some(
                    (
                        scheme + "://"@ + host + ":"@ + decimal_text(port as nat) + "/"@,
                        "Local Development Server"@,
                    ),
                ),
                _ => None,
            },
            None => None,
        }
    } else {
        match forwarded_host {
            Some(h) => Some(("https://"@ + h + "/"@, "Production Server"@)),
            None => None,
        }
    }
}

/// The text of an optional string slice.
pub open spec fn text_of(v: Option<&str>) -> Option<Seq<char>> {
    match v {
        Some(s) => Some(s@),
        None => None,
    }
}

/// Works out the server URL and description, or `None` where the request
/// does not carry what is needed.
pub fn try_server_info(is_local: bool, full_url: Option<&str>, forwarded_host: Option<&str>) -> (r:
    Option<(String, String)>)
    ensures
        match server_info_spec(is_local, text_of(full_url), text_of(forwarded_host)) {
            Some((u, d)) => r matches Some((ru, rd)) && ru@ == u && rd@ == d,
            None => r is None,
        },
{
    if is_local {
        let u = match full_url {
            Some(u) => u,
            None => {
                return None;
            },
        };
        match parse_url_parts(u) {
            Some((scheme, Some(host), Some(port))) => {
                let mut s = scheme;
                s.append("://");
                s.append(host.as_str());
                s.append(":");
                let p = u64_text(port as u64);
                s.append(p.as_str());
                s.append("/");
                Some((s, String::from_str("Local Development Server")))
            },
            _ => None,
        }
    } else {
        match forwarded_host {
            Some(h) => {
                let mut s = String::from_str("https://");
                s.append(h);
                s.append("/");
                Some((s, String::from_str("Production Server")))
            },
            None => None,
        }
    }
}

/// The documentation path asked for, with the `/docs/` prefix removed
/// wherever it occurs (`str::replace`); `/` where Spin gives no path text.
pub open spec fn docs_path_spec(path_info: Option<Seq<char>>) -> Seq<char> {
    match path_info {
        Some(p) => remove_docs(p),
        None => "/"@,
    }
}

/// The text with every non-overlapping `/docs/` removed, scanning from the
/// left.
pub open spec fn remove_docs(p: Seq<char>) -> Seq<char>
    decreases p.len(),
{
    if p.len() >= 6 && p.take(6) == "/docs/"@ {
        remove_docs(p.skip(6))
    } else if p.len() == 0 {
        p
    } else {
        seq![p[0]] + remove_docs(p.skip(1))
    }
}

fn starts_docs_at(p: &Vec<char>, i: usize) -> (b: bool)
    requires
        i <= p@.len(),
    ensures
        b == (p@.skip(i as int).len() >= 6 && p@.skip(i as int).take(6) == "/docs/"@),
{
    proof {
        reveal_strlit("/docs/");
    }
    if p.len() - i < 6 {
        return false;
    }
    let b = p[i] == '/' && p[i + 1] == 'd' && p[i + 2] == 'o' && p[i + 3] == 'c' && p[i + 4] == 's'
        && p[i + 5] == '/';
    proof {
        let t = p@.skip(i as int).take(6);
        if b {
            assert(t =~= "/docs/"@);
        } else {
            assert(t != "/docs/"@) by {
                if t == "/docs/"@ {
                    assert(t[0] == '/' && t[1] == 'd' && t[2] == 'o' && t[3] == 'c' && t[4] == 's'
                        && t[5] == '/');
                }
            }
        }
    }
    b
}

/// The documentation file asked for: the `spin-path-info` text with
/// `/docs/` removed, or `/` where there is none.
pub fn docs_path(path_info: Option<&str>) -> (r: String)
    ensures
        r@ == docs_path_spec(text_of(path_info)),
{
    let text = match path_info {
        Some(t) => t,
        None => {
            return String::from_str("/");
        },
    };
    let p = crate::text::chars_of(text);
    let mut out: Vec<char> = Vec::new();
    let mut i: usize = 0;
    assert(p@.skip(0) =~= p@);
    while i < p.len()
        invariant
            i <= p@.len(),
            p@ == text@,
            remove_docs(p@) == out@ + remove_docs(p@.skip(i as int)),
        decreases p.len() - i,
    {
        let ghost rest = p@.skip(i as int);
        if starts_docs_at(&p, i) {
            proof {
                assert(rest.skip(6) =~= p@.skip(i + 6));
            }
            i = i + 6;
        } else {
            proof {
                assert(rest.skip(1) =~= p@.skip(i + 1));
                assert(rest[0] == p@[i as int]);
                assert(out@ + (seq![p@[i as int]] + remove_docs(p@.skip(i + 1))) =~= out@.push(p@[i as int]) + remove_docs(p@.skip(i + 1)));
            }
            out.push(p[i]);
            i = i + 1;
        }
    }
    proof {
        assert(p@.skip(i as int).len() == 0);
        assert(out@ + remove_docs(p@.skip(i as int)) =~= out@);
    }
    crate::text::string_from_chars(&out)
}

} // verus!
