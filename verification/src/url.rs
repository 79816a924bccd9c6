use vstd::prelude::*;

use crate::errors::ProxyError;
use crate::text::opt_text;

verus! {

/// The mathematical model of an absolute URL, as far as this proxy reads one:
/// scheme, authority (`host[:port]`), absolute path, and optional query.
/// Fragments never reach the proxy's decisions and are not modelled.
pub ghost struct UrlModel {
    pub scheme: Seq<char>,
    pub authority: Seq<char>,
    pub path: Seq<char>,
    pub query: Option<Seq<char>>,
}

impl UrlModel {
    /// A URL this proxy works with: scheme and authority present, and an
    /// absolute path.
    pub open spec fn wf(self) -> bool {
        &&& self.scheme.len() > 0
        &&& self.authority.len() > 0
        &&& self.path.len() > 0
        &&& self.path[0] == '/'
    }

    /// The text of the whole URL.
    pub open spec fn text(self) -> Seq<char> {
        self.scheme + "://"@ + self.authority + self.path + match self.query {
            Some(q) => "?"@ + q,
            None => Seq::<char>::empty(),
        }
    }

    /// The text of the URL's origin, `scheme://authority`.  This is the
    /// certificate origin when `self` is a fallback URL.
    pub open spec fn origin_text(self) -> Seq<char> {
        self.scheme + "://"@ + self.authority
    }
}

/// An absolute URL held as its components.
#[derive(Debug, PartialEq, Eq)]
pub struct UrlParts {
    pub scheme: String,
    pub authority: String,
    pub path: String,
    pub query: Option<String>,
}

impl View for UrlParts {
    type V = UrlModel;

    open spec fn view(&self) -> UrlModel {
        UrlModel {
            scheme: self.scheme@,
            authority: self.authority@,
            path: self.path@,
            query: opt_text(self.query),
        }
    }
}

impl UrlParts {
    /// Writes the URL back out as one string.
    pub fn to_url_string(&self) -> (r: String)
        ensures
            r@ == self@.text(),
    {
        let mut s = self.scheme.clone();
        s.append("://");
        s.append(self.authority.as_str());
        s.append(self.path.as_str());
        match &self.query {
            Some(q) => {
                s.append("?");
                s.append(q.as_str());
            },
            None => {},
        }
        proof {
            assert(s@ =~= self@.text());
        }
        s
    }

    /// The certificate origin derived from this URL: `scheme://authority`,
    /// a pure string derivation that reads nothing but the URL itself.
    pub fn cert_origin(&self) -> (r: String)
        ensures
            r@ == self@.origin_text(),
    {
        let mut s = self.scheme.clone();
        s.append("://");
        s.append(self.authority.as_str());
        proof {
            assert(s@ =~= self@.origin_text());
        }
        s
    }

}

/// The position of the first `?` in `s` at or after `i`, if any.
pub open spec fn qmark_from(s: Seq<char>, i: int) -> Option<int>
    decreases s.len() - i,
{
    if i < 0 || i >= s.len() {
        None
    } else if s[i] == '?' {
        Some(i)
    } else {
        qmark_from(s, i + 1)
    }
}

/// Splits `path?query` text at the first `?`; without one, the query is
/// absent.
pub open spec fn split_path_query(pq: Seq<char>) -> (Seq<char>, Option<Seq<char>>) {
    match qmark_from(pq, 0) {
        Some(k) => (pq.subrange(0, k), Some(pq.subrange(k + 1, pq.len() as int))),
        None => (pq, None),
    }
}

/// `pq` is an absolute path with optional query, as inbound requests carry it.
pub open spec fn absolute_path(pq: Seq<char>) -> bool {
    pq.len() > 0 && pq[0] == '/'
}

/// The model of a `Result` carrying a URL.
pub open spec fn url_result_model(r: Result<UrlParts, ProxyError>) -> Result<
    UrlModel,
    ProxyError,
> {
    match r {
        Ok(u) => Ok(u@),
        Err(e) => Err(e),
    }
}

/// The canonical URL of an inbound request: its path and query resolved
/// against the configured signed-domain host, always under `https`.
pub open spec fn canonical_request_url_spec(host: Seq<char>, pq: Seq<char>) -> Result<
    UrlModel,
    ProxyError,
> {
    if host.len() == 0 {
        Err(ProxyError::MalformedSignedDomain)
    } else if !absolute_path(pq) {
        Err(ProxyError::MalformedRequestPath)
    } else {
        Ok(
            UrlModel {
                scheme: "https"@,
                authority: host,
                path: split_path_query(pq).0,
                query: split_path_query(pq).1,
            },
        )
    }
}

/// The URL fetched from the backend: the backend origin joined with the
/// request's path and query.
pub open spec fn backend_request_url_spec(backend: UrlModel, pq: Seq<char>) -> Result<
    UrlModel,
    ProxyError,
> {
    if !absolute_path(pq) {
        Err(ProxyError::MalformedRequestPath)
    } else {
        Ok(
            UrlModel {
                scheme: backend.scheme,
                authority: backend.authority,
                path: split_path_query(pq).0,
                query: split_path_query(pq).1,
            },
        )
    }
}

/// The fallback URL derived from a backend URL: path and query are preserved
/// and the authority is substituted with the configured signed-domain host.
/// A request is eligible only when a signed domain is configured and the
/// backend URL is `https`; a backend-chosen authority never stands in the
/// fallback URL.
pub open spec fn fallback_url_spec(backend_url: UrlModel, host: Seq<char>) -> Result<
    UrlModel,
    ProxyError,
> {
    if host.len() == 0 || backend_url.scheme != "https"@ {
        Err(ProxyError::FallbackNotEligible)
    } else {
        Ok(
            UrlModel {
                scheme: backend_url.scheme,
                authority: host,
                path: backend_url.path,
                query: backend_url.query,
            },
        )
    }
}

/// Finds the first `?` at or after `i`.
fn find_qmark_from(s: &str, i: usize) -> (r: Option<usize>)
    requires
        i <= s@.len(),
    ensures
        match r {
            Some(k) => qmark_from(s@, i as int) == Some(k as int) && i <= k < s@.len(),
            None => qmark_from(s@, i as int) is None,
        },
    decreases s@.len() - i,
{
    if i == s.unicode_len() {
        None
    } else if s.get_char(i) == '?' {
        Some(i)
    } else {
        find_qmark_from(s, i + 1)
    }
}

/// Splits an absolute `path?query` string; `None` when the string is not an
/// absolute path.
pub fn split_path_and_query(pq: &str) -> (r: Option<(String, Option<String>)>)
    ensures
        match r {
            None => !absolute_path(pq@),
            Some(p) => {
                &&& absolute_path(pq@)
                &&& p.0@ == split_path_query(pq@).0
                &&& opt_text(p.1) == split_path_query(pq@).1
            },
        },
{
    let n = pq.unicode_len();
    if n == 0 || pq.get_char(0) != '/' {
        return None;
    }
    match find_qmark_from(pq, 0) {
        Some(k) => {
            let path = pq.substring_char(0, k).to_owned();
            let query = pq.substring_char(k + 1, n).to_owned();
            Some((path, Some(query)))
        },
        None => Some((pq.to_owned(), None)),
    }
}

/// Resolves the request's path and query against the signed-domain host into
/// the canonical request URL.
pub fn canonical_request_url(html_host: &str, path_and_query: &str) -> (r: Result<
    UrlParts,
    ProxyError,
>)
    ensures
        url_result_model(r) == canonical_request_url_spec(html_host@, path_and_query@),
        r matches Ok(u) ==> u@.wf(),
{
    if html_host.unicode_len() == 0 {
        return Err(ProxyError::MalformedSignedDomain);
    }
    match split_path_and_query(path_and_query) {
        None => Err(ProxyError::MalformedRequestPath),
        Some((path, query)) => {
            proof {
                reveal_strlit("https");
                lemma_split_absolute_path(path_and_query@);
            }
            Ok(
                UrlParts {
                    scheme: String::from_str("https"),
                    authority: html_host.to_owned(),
                    path,
                    query,
                },
            )
        },
    }
}

/// Joins the backend origin with the request's path and query.
pub fn backend_request_url(backend: &UrlParts, path_and_query: &str) -> (r: Result<
    UrlParts,
    ProxyError,
>)
    requires
        backend@.wf(),
    ensures
        url_result_model(r) == backend_request_url_spec(backend@, path_and_query@),
        r matches Ok(u) ==> u@.wf(),
{
    match split_path_and_query(path_and_query) {
        None => Err(ProxyError::MalformedRequestPath),
        Some((path, query)) => {
            proof {
                lemma_split_absolute_path(path_and_query@);
            }
            Ok(
                UrlParts {
                    scheme: backend.scheme.clone(),
                    authority: backend.authority.clone(),
                    path,
                    query,
                },
            )
        },
    }
}

/// Derives the fallback URL for a backend URL, substituting the configured
/// signed-domain host for the backend's authority.
pub fn fallback_url(backend_url: &UrlParts, html_host: &str) -> (r: Result<UrlParts, ProxyError>)
    requires
        backend_url@.wf(),
    ensures
        url_result_model(r) == fallback_url_spec(backend_url@, html_host@),
        r matches Ok(u) ==> u@.wf(),
{
    let https = String::from_str("https");
    if html_host.unicode_len() == 0 || !backend_url.scheme.eq(&https) {
        return Err(ProxyError::FallbackNotEligible);
    }
    Ok(
        UrlParts {
            scheme: backend_url.scheme.clone(),
            authority: html_host.to_owned(),
            path: backend_url.path.clone(),
            query: match &backend_url.query {
                Some(q) => Some(q.clone()),
                None => None,
            },
        },
    )
}

/// Whatever position `qmark_from` finds lies in range and holds a `?`.
proof fn lemma_qmark_from_bounds(s: Seq<char>, i: int)
    ensures
        qmark_from(s, i) matches Some(k) ==> i <= k < s.len() && s[k] == '?',
    decreases s.len() - i,
{
    if 0 <= i < s.len() && s[i] != '?' {
        lemma_qmark_from_bounds(s, i + 1);
    }
}

/// The path produced by splitting an absolute `path?query` string is itself
/// an absolute path.
proof fn lemma_split_absolute_path(pq: Seq<char>)
    requires
        absolute_path(pq),
    ensures
        split_path_query(pq).0.len() > 0,
        split_path_query(pq).0[0] == '/',
{
    lemma_qmark_from_bounds(pq, 0);
    match qmark_from(pq, 0) {
        Some(k) => {
            assert(pq[k] == '?');
            assert(k != 0);
        },
        None => {},
    }
}

} // verus!
