use vstd::prelude::*;

use crate::errors::ProxyError;
use crate::text::{matches_lower, name_matches};

verus! {

/// What the downstream client has said about signed exchanges, derived from
/// its `Accept` header.  `PrefersSxg` asks the backend for a signed-friendly
/// response while still accepting unsigned content; `AcceptsSxg` records that
/// the client demonstrably understands signed exchanges and is used only to
/// validate requests whose content is already destined to be signed.
#[derive(Debug, Clone, Copy, PartialEq, Eq)]
pub enum AcceptFilter {
    AcceptsSxg,
    PrefersSxg,
}

/// The character-level model of a header list.
pub type HeaderModel = Seq<(Seq<char>, Seq<char>)>;

/// The model of an owned header list.
pub open spec fn headers_model(h: Seq<(String, String)>) -> HeaderModel {
    Seq::new(h.len(), |i: int| (h[i].0@, h[i].1@))
}

/// The model of a `Result` carrying a header list.
pub open spec fn headers_result_model(r: Result<Vec<(String, String)>, ProxyError>) -> Result<
    HeaderModel,
    ProxyError,
> {
    match r {
        Ok(v) => Ok(headers_model(v@)),
        Err(e) => Err(e),
    }
}

/// Headers stripped from a request before it is forwarded to the backend:
/// hop-by-hop headers, forwarding chains, the client's `Host`, and `Accept`,
/// which the policy replaces with its own negotiation.
pub open spec fn request_stripped(n: Seq<char>) -> bool {
    ||| matches_lower(n, "connection"@)
    ||| matches_lower(n, "keep-alive"@)
    ||| matches_lower(n, "proxy-authenticate"@)
    ||| matches_lower(n, "proxy-authorization"@)
    ||| matches_lower(n, "te"@)
    ||| matches_lower(n, "trailer"@)
    ||| matches_lower(n, "transfer-encoding"@)
    ||| matches_lower(n, "upgrade"@)
    ||| matches_lower(n, "forwarded"@)
    ||| matches_lower(n, "x-forwarded-for"@)
    ||| matches_lower(n, "x-forwarded-host"@)
    ||| matches_lower(n, "x-forwarded-proto"@)
    ||| matches_lower(n, "via"@)
    ||| matches_lower(n, "host"@)
    ||| matches_lower(n, "accept"@)
}

/// Headers removed from a payload before it goes inside a signed exchange:
/// hop-by-hop headers, headers identifying the proxy or the connection, and
/// stateful headers that must not be replayed.  Caching metadata is kept.
pub open spec fn payload_stripped(n: Seq<char>) -> bool {
    ||| matches_lower(n, "connection"@)
    ||| matches_lower(n, "keep-alive"@)
    ||| matches_lower(n, "proxy-connection"@)
    ||| matches_lower(n, "te"@)
    ||| matches_lower(n, "trailer"@)
    ||| matches_lower(n, "transfer-encoding"@)
    ||| matches_lower(n, "upgrade"@)
    ||| matches_lower(n, "forwarded"@)
    ||| matches_lower(n, "via"@)
    ||| matches_lower(n, "server"@)
    ||| matches_lower(n, "set-cookie"@)
    ||| matches_lower(n, "www-authenticate"@)
    ||| matches_lower(n, "authorization"@)
}

/// A structurally valid header entry: a named header.
pub open spec fn header_entry_wf(p: (Seq<char>, Seq<char>)) -> bool {
    p.0.len() > 0
}

/// How many entries name the `Host` header.
pub open spec fn host_count(h: HeaderModel) -> nat
    decreases h.len(),
{
    if h.len() == 0 {
        0
    } else {
        host_count(h.drop_last()) + if matches_lower(h.last().0, "host"@) {
            1nat
        } else {
            0nat
        }
    }
}

/// A structurally valid header list: every entry is named, and the forbidden
/// duplicate — a second `Host` — does not occur.
pub open spec fn headers_wf(h: HeaderModel) -> bool {
    &&& forall|i: int| 0 <= i < h.len() ==> header_entry_wf(#[trigger] h[i])
    &&& host_count(h) <= 1
}

/// The request headers that survive the policy, in their original order.
pub open spec fn keep_request_headers(h: HeaderModel) -> HeaderModel
    decreases h.len(),
{
    if h.len() == 0 {
        Seq::empty()
    } else {
        keep_request_headers(h.drop_last()) + if request_stripped(h.last().0) {
            Seq::empty()
        } else {
            seq![h.last()]
        }
    }
}

/// The payload headers that survive the policy, in their original order.
pub open spec fn keep_payload_headers(h: HeaderModel) -> HeaderModel
    decreases h.len(),
{
    if h.len() == 0 {
        Seq::empty()
    } else {
        keep_payload_headers(h.drop_last()) + if payload_stripped(h.last().0) {
            Seq::empty()
        } else {
            seq![h.last()]
        }
    }
}

/// The `Accept` negotiation the policy sets for the backend, per filter.
pub open spec fn accept_value(f: AcceptFilter) -> Seq<char> {
    match f {
        AcceptFilter::AcceptsSxg => "application/signed-exchange;v=b3"@,
        AcceptFilter::PrefersSxg => "application/signed-exchange;v=b3;q=0.9,*/*;q=0.8"@,
    }
}

/// What the request-header transformation returns: the structural check, then
/// the surviving headers with the policy's own `Accept` appended.
pub open spec fn transform_request_headers_spec(h: HeaderModel, f: AcceptFilter) -> Result<
    HeaderModel,
    ProxyError,
> {
    if !headers_wf(h) {
        Err(ProxyError::InvalidHeaders)
    } else {
        Ok(keep_request_headers(h).push(("accept"@, accept_value(f))))
    }
}

/// What the payload-header transformation returns: the structural check, then
/// the headers legal inside a signed exchange, in order.
pub open spec fn transform_payload_headers_spec(h: HeaderModel) -> Result<
    HeaderModel,
    ProxyError,
> {
    if !headers_wf(h) {
        Err(ProxyError::InvalidHeaders)
    } else {
        Ok(keep_payload_headers(h))
    }
}

/// Whether the request policy strips a header of this name.
pub fn is_request_stripped(name: &str) -> (r: bool)
    ensures
        r == request_stripped(name@),
{
    name_matches(name, "connection") || name_matches(name, "keep-alive") || name_matches(
        name,
        "proxy-authenticate",
    ) || name_matches(name, "proxy-authorization") || name_matches(name, "te") || name_matches(
        name,
        "trailer",
    ) || name_matches(name, "transfer-encoding") || name_matches(name, "upgrade") || name_matches(
        name,
        "forwarded",
    ) || name_matches(name, "x-forwarded-for") || name_matches(name, "x-forwarded-host")
        || name_matches(name, "x-forwarded-proto") || name_matches(name, "via") || name_matches(
        name,
        "host",
    ) || name_matches(name, "accept")
}

/// Whether the payload policy strips a header of this name.
pub fn is_payload_stripped(name: &str) -> (r: bool)
    ensures
        r == payload_stripped(name@),
{
    name_matches(name, "connection") || name_matches(name, "keep-alive") || name_matches(
        name,
        "proxy-connection",
    ) || name_matches(name, "te") || name_matches(name, "trailer") || name_matches(
        name,
        "transfer-encoding",
    ) || name_matches(name, "upgrade") || name_matches(name, "forwarded") || name_matches(
        name,
        "via",
    ) || name_matches(name, "server") || name_matches(name, "set-cookie") || name_matches(
        name,
        "www-authenticate",
    ) || name_matches(name, "authorization")
}

/// Checks a header list for structural validity.
pub fn headers_valid(h: &Vec<(String, String)>) -> (r: bool)
    ensures
        r == headers_wf(headers_model(h@)),
{
    let ghost m = headers_model(h@);
    let mut hosts: usize = 0;
    let mut i: usize = 0;
    while i < h.len()
        invariant
            m == headers_model(h@),
            i <= h@.len(),
            hosts <= i,
            hosts == host_count(m.take(i as int)),
            forall|j: int| 0 <= j < i ==> header_entry_wf(#[trigger] m[j]),
        decreases h@.len() - i,
    {
        let p = &h[i];
        if p.0.as_str().unicode_len() == 0 {
            proof {
                assert(!header_entry_wf(m[i as int]));
            }
            return false;
        }
        proof {
            assert(m.take(i + 1).drop_last() =~= m.take(i as int));
            assert(m.take(i + 1).last() == m[i as int]);
        }
        if name_matches(p.0.as_str(), "host") {
            hosts = hosts + 1;
        }
        i = i + 1;
    }
    proof {
        assert(m.take(h@.len() as int) =~= m);
    }
    hosts <= 1
}

/// The `Accept` value set for the backend, per filter.
pub fn accept_header_value(f: AcceptFilter) -> (r: String)
    ensures
        r@ == accept_value(f),
{
    match f {
        AcceptFilter::AcceptsSxg => String::from_str("application/signed-exchange;v=b3"),
        AcceptFilter::PrefersSxg => String::from_str(
            "application/signed-exchange;v=b3;q=0.9,*/*;q=0.8",
        ),
    }
}

/// Copies the request headers that survive the policy, in order.
fn keep_request_exec(h: &Vec<(String, String)>) -> (out: Vec<(String, String)>)
    ensures
        headers_model(out@) == keep_request_headers(headers_model(h@)),
{
    let ghost m = headers_model(h@);
    let mut out: Vec<(String, String)> = Vec::new();
    let mut i: usize = 0;
    proof {
        assert(headers_model(out@) =~= keep_request_headers(m.take(0)));
    }
    while i < h.len()
        invariant
            m == headers_model(h@),
            i <= h@.len(),
            headers_model(out@) == keep_request_headers(m.take(i as int)),
        decreases h@.len() - i,
    {
        let ghost prev = headers_model(out@);
        let p = &h[i];
        let keep = !is_request_stripped(p.0.as_str());
        if keep {
            out.push((p.0.clone(), p.1.clone()));
        }
        proof {
            assert(m.take(i + 1).drop_last() =~= m.take(i as int));
            assert(m.take(i + 1).last() == m[i as int]);
            if keep {
                assert(headers_model(out@) =~= prev + seq![m[i as int]]);
            } else {
                assert(keep_request_headers(m.take(i + 1)) =~= prev);
            }
        }
        i = i + 1;
    }
    proof {
        assert(m.take(h@.len() as int) =~= m);
    }
    out
}

/// Copies the payload headers that survive the policy, in order.
fn keep_payload_exec(h: &Vec<(String, String)>) -> (out: Vec<(String, String)>)
    ensures
        headers_model(out@) == keep_payload_headers(headers_model(h@)),
{
    let ghost m = headers_model(h@);
    let mut out: Vec<(String, String)> = Vec::new();
    let mut i: usize = 0;
    proof {
        assert(headers_model(out@) =~= keep_payload_headers(m.take(0)));
    }
    while i < h.len()
        invariant
            m == headers_model(h@),
            i <= h@.len(),
            headers_model(out@) == keep_payload_headers(m.take(i as int)),
        decreases h@.len() - i,
    {
        let ghost prev = headers_model(out@);
        let p = &h[i];
        let keep = !is_payload_stripped(p.0.as_str());
        if keep {
            out.push((p.0.clone(), p.1.clone()));
        }
        proof {
            assert(m.take(i + 1).drop_last() =~= m.take(i as int));
            assert(m.take(i + 1).last() == m[i as int]);
            if keep {
                assert(headers_model(out@) =~= prev + seq![m[i as int]]);
            } else {
                assert(keep_payload_headers(m.take(i + 1)) =~= prev);
            }
        }
        i = i + 1;
    }
    proof {
        assert(m.take(h@.len() as int) =~= m);
    }
    out
}

/// Transforms request headers into their signing-safe, forwardable form:
/// structurally invalid header lists are rejected; hop-by-hop and forwarding
/// headers are stripped; the `Accept` negotiation for the given filter is set.
pub fn transform_request_headers(headers: &Vec<(String, String)>, filter: AcceptFilter) -> (r:
    Result<Vec<(String, String)>, ProxyError>)
    ensures
        headers_result_model(r) == transform_request_headers_spec(
            headers_model(headers@),
            filter,
        ),
{
    if !headers_valid(headers) {
        return Err(ProxyError::InvalidHeaders);
    }
    let mut out = keep_request_exec(headers);
    let ghost kept = headers_model(out@);
    out.push((String::from_str("accept"), accept_header_value(filter)));
    proof {
        assert(headers_model(out@) =~= kept.push(("accept"@, accept_value(filter))));
    }
    Ok(out)
}

/// Transforms payload headers into the form legal inside a signed exchange:
/// structurally invalid header lists are rejected; hop-by-hop, proxy-naming
/// and stateful headers are removed; caching metadata survives.
pub fn transform_payload_headers(headers: &Vec<(String, String)>) -> (r: Result<
    Vec<(String, String)>,
    ProxyError,
>)
    ensures
        headers_result_model(r) == transform_payload_headers_spec(headers_model(headers@)),
{
    if !headers_valid(headers) {
        return Err(ProxyError::InvalidHeaders);
    }
    Ok(keep_payload_exec(headers))
}

} // verus!
