use vstd::prelude::*;

use crate::errors::ProxyError;
use crate::headers::{
    accept_value, header_entry_wf, headers_wf, host_count, keep_payload_headers,
    keep_request_headers, payload_stripped, request_stripped, transform_payload_headers_spec,
    transform_request_headers_spec, AcceptFilter, HeaderModel,
};
use crate::text::{lower_char, matches_lower};
use crate::url::{fallback_url_spec, UrlModel};

verus! {

/// The fallback URL of every request routed to the backend carries the
/// configured signed-domain host as its authority — never the backend's own
/// authority, whatever the backend URL looked like.
pub proof fn lemma_fallback_authority_is_signed_domain(backend_url: UrlModel, host: Seq<char>)
    ensures
        fallback_url_spec(backend_url, host) matches Ok(f) ==> f.authority == host,
{
}

/// The certificate origin is a pure function of the fallback URL's scheme and
/// authority: it cannot change while those stay fixed, whatever else — the
/// backend address above all — changes.
pub proof fn lemma_cert_origin_ignores_everything_else(a: UrlModel, b: UrlModel)
    requires
        a.scheme == b.scheme,
        a.authority == b.authority,
    ensures
        a.origin_text() == b.origin_text(),
{
}

/// Every header surviving the request policy has a name the policy keeps.
proof fn lemma_keep_request_unstripped(h: HeaderModel)
    ensures
        forall|i: int|
            0 <= i < keep_request_headers(h).len() ==> !request_stripped(
                #[trigger] keep_request_headers(h)[i].0,
            ),
    decreases h.len(),
{
    if h.len() > 0 {
        lemma_keep_request_unstripped(h.drop_last());
        let k = keep_request_headers(h);
        let kd = keep_request_headers(h.drop_last());
        assert forall|i: int| 0 <= i < k.len() implies !request_stripped(k[i].0) by {
            if i < kd.len() {
                assert(k[i] == kd[i]);
            } else {
                assert(!request_stripped(h.last().0));
                assert(k[i] == h.last());
            }
        }
    }
}

/// The request policy keeps well-formed entries well-formed.
proof fn lemma_keep_request_entry_wf(h: HeaderModel)
    requires
        forall|i: int| 0 <= i < h.len() ==> header_entry_wf(#[trigger] h[i]),
    ensures
        forall|i: int|
            0 <= i < keep_request_headers(h).len() ==> header_entry_wf(
                #[trigger] keep_request_headers(h)[i],
            ),
    decreases h.len(),
{
    if h.len() > 0 {
        assert(forall|i: int|
            0 <= i < h.drop_last().len() ==> header_entry_wf(#[trigger] h.drop_last()[i]));
        lemma_keep_request_entry_wf(h.drop_last());
        let k = keep_request_headers(h);
        let kd = keep_request_headers(h.drop_last());
        assert forall|i: int| 0 <= i < k.len() implies header_entry_wf(k[i]) by {
            if i < kd.len() {
                assert(k[i] == kd[i]);
            } else {
                assert(k[i] == h.last());
                assert(h.last() == h[h.len() - 1]);
            }
        }
    }
}

/// No `Host` header survives the request policy.
proof fn lemma_keep_request_no_host(h: HeaderModel)
    ensures
        host_count(keep_request_headers(h)) == 0,
    decreases h.len(),
{
    if h.len() > 0 {
        lemma_keep_request_no_host(h.drop_last());
        let k = keep_request_headers(h);
        let kd = keep_request_headers(h.drop_last());
        if request_stripped(h.last().0) {
            assert(k =~= kd);
        } else {
            assert(k.drop_last() =~= kd);
            assert(k.last() == h.last());
            assert(!matches_lower(h.last().0, "host"@));
        }
    }
}

/// On a header list the request policy strips nothing from, the policy is the
/// identity.
proof fn lemma_keep_request_identity(h: HeaderModel)
    requires
        forall|i: int| 0 <= i < h.len() ==> !request_stripped(#[trigger] h[i].0),
    ensures
        keep_request_headers(h) == h,
    decreases h.len(),
{
    if h.len() > 0 {
        assert(forall|i: int|
            0 <= i < h.drop_last().len() ==> !request_stripped(#[trigger] h.drop_last()[i].0));
        lemma_keep_request_identity(h.drop_last());
        assert(h.last() == h[h.len() - 1]);
        assert(keep_request_headers(h) =~= h);
    }
}

/// `accept`, written in lower case, reads as itself under the lowercasing
/// comparison.
proof fn lemma_accept_matches_itself()
    ensures
        matches_lower("accept"@, "accept"@),
{
    reveal_strlit("accept");
    assert forall|i: int| 0 <= i < "accept"@.len() implies lower_char(#[trigger] "accept"@[i])
        == "accept"@[i] by {
        if i == 0 {
        } else if i == 1 {
        } else if i == 2 {
        } else if i == 3 {
        } else if i == 4 {
        } else {
        }
    }
}

/// The request-header policy is idempotent: headers it has transformed once
/// are conformant, and a second pass with the same filter changes nothing.
pub proof fn lemma_transform_request_idempotent(h: HeaderModel, f: AcceptFilter)
    ensures
        transform_request_headers_spec(h, f) matches Ok(out)
            ==> transform_request_headers_spec(out, f) == Ok::<HeaderModel, ProxyError>(out),
{
    if headers_wf(h) {
        let k = keep_request_headers(h);
        let acc = ("accept"@, accept_value(f));
        let out = k.push(acc);
        assert(out.drop_last() =~= k);
        assert(out.last() == acc);

        // `out` is structurally valid.
        lemma_keep_request_entry_wf(h);
        lemma_keep_request_no_host(h);
        reveal_strlit("accept");
        reveal_strlit("host");
        assert(acc.0.len() == 6);
        assert("host"@.len() == 4);
        assert(!matches_lower(acc.0, "host"@));
        assert(host_count(out) == 0);
        assert(header_entry_wf(acc));
        assert(forall|i: int| 0 <= i < out.len() ==> header_entry_wf(#[trigger] out[i]));
        assert(headers_wf(out));

        // A second pass strips exactly the appended `accept` and re-appends it.
        lemma_accept_matches_itself();
        assert(request_stripped(acc.0));
        assert(keep_request_headers(out) =~= keep_request_headers(k));
        lemma_keep_request_unstripped(h);
        lemma_keep_request_identity(k);
        assert(keep_request_headers(out).push(acc) =~= out);
    }
}

/// Every header surviving the payload policy has a name the policy keeps.
proof fn lemma_keep_payload_unstripped(h: HeaderModel)
    ensures
        forall|i: int|
            0 <= i < keep_payload_headers(h).len() ==> !payload_stripped(
                #[trigger] keep_payload_headers(h)[i].0,
            ),
    decreases h.len(),
{
    if h.len() > 0 {
        lemma_keep_payload_unstripped(h.drop_last());
        let k = keep_payload_headers(h);
        let kd = keep_payload_headers(h.drop_last());
        assert forall|i: int| 0 <= i < k.len() implies !payload_stripped(k[i].0) by {
            if i < kd.len() {
                assert(k[i] == kd[i]);
            } else {
                assert(!payload_stripped(h.last().0));
                assert(k[i] == h.last());
            }
        }
    }
}

/// The payload policy keeps well-formed entries well-formed.
proof fn lemma_keep_payload_entry_wf(h: HeaderModel)
    requires
        forall|i: int| 0 <= i < h.len() ==> header_entry_wf(#[trigger] h[i]),
    ensures
        forall|i: int|
            0 <= i < keep_payload_headers(h).len() ==> header_entry_wf(
                #[trigger] keep_payload_headers(h)[i],
            ),
    decreases h.len(),
{
    if h.len() > 0 {
        assert(forall|i: int|
            0 <= i < h.drop_last().len() ==> header_entry_wf(#[trigger] h.drop_last()[i]));
        lemma_keep_payload_entry_wf(h.drop_last());
        let k = keep_payload_headers(h);
        let kd = keep_payload_headers(h.drop_last());
        assert forall|i: int| 0 <= i < k.len() implies header_entry_wf(k[i]) by {
            if i < kd.len() {
                assert(k[i] == kd[i]);
            } else {
                assert(k[i] == h.last());
                assert(h.last() == h[h.len() - 1]);
            }
        }
    }
}

/// The payload policy never adds `Host` headers.
proof fn lemma_keep_payload_host_le(h: HeaderModel)
    ensures
        host_count(keep_payload_headers(h)) <= host_count(h),
    decreases h.len(),
{
    if h.len() > 0 {
        lemma_keep_payload_host_le(h.drop_last());
        let k = keep_payload_headers(h);
        let kd = keep_payload_headers(h.drop_last());
        if payload_stripped(h.last().0) {
            assert(k =~= kd);
        } else {
            assert(k.drop_last() =~= kd);
            assert(k.last() == h.last());
        }
    }
}

/// On a header list the payload policy strips nothing from, the policy is the
/// identity.
proof fn lemma_keep_payload_identity(h: HeaderModel)
    requires
        forall|i: int| 0 <= i < h.len() ==> !payload_stripped(#[trigger] h[i].0),
    ensures
        keep_payload_headers(h) == h,
    decreases h.len(),
{
    if h.len() > 0 {
        assert(forall|i: int|
            0 <= i < h.drop_last().len() ==> !payload_stripped(#[trigger] h.drop_last()[i].0));
        lemma_keep_payload_identity(h.drop_last());
        assert(h.last() == h[h.len() - 1]);
        assert(keep_payload_headers(h) =~= h);
    }
}

/// The payload-header policy is idempotent: a second pass over headers it has
/// already transformed changes nothing.
pub proof fn lemma_transform_payload_idempotent(h: HeaderModel)
    ensures
        transform_payload_headers_spec(h) matches Ok(out) ==> transform_payload_headers_spec(out)
            == Ok::<HeaderModel, ProxyError>(out),
{
    if headers_wf(h) {
        let out = keep_payload_headers(h);
        lemma_keep_payload_entry_wf(h);
        lemma_keep_payload_host_le(h);
        assert(headers_wf(out));
        lemma_keep_payload_unstripped(h);
        lemma_keep_payload_identity(out);
    }
}

} // verus!
