use sxg_proxy::{
    build_signing_params, canonical_request_url, error_response, on_backend_response,
    on_signing_result, parse_backend_origin, route_preset, DispatchPlan, HttpRequestData,
    HttpResponseData, Method, PresetContent, ProxyError, SignTask, UrlParts,
};

fn parts(scheme: &str, authority: &str, path: &str, query: Option<&str>) -> UrlParts {
    UrlParts {
        scheme: scheme.to_string(),
        authority: authority.to_string(),
        path: path.to_string(),
        query: query.map(|q| q.to_string()),
    }
}

fn request(path: &str) -> HttpRequestData {
    HttpRequestData {
        method: Method::Get,
        path_and_query: path.to_string(),
        headers: vec![("user-agent".to_string(), "test".to_string())],
        body: Vec::new(),
    }
}

#[test]
fn preset_direct_served_verbatim() {
    // A preset mapping for a certificate download answers with stored bytes;
    // the response must pass through exactly as supplied.
    let cert_bytes = vec![0x30u8, 0x82, 0x01, 0x0a, 0x99];
    let stored = HttpResponseData {
        status: 200,
        headers: vec![("content-type".to_string(), "application/cert-chain+cbor".to_string())],
        body: cert_bytes.clone(),
    };
    let backend = parts("https", "backend.example", "/", None);
    let req = request("/.well-known/sxg-certs/abc");
    let plan = route_preset(Some(PresetContent::Direct(stored)), req, &backend, "pub.example")
        .unwrap();
    match plan {
        DispatchPlan::Respond(resp) => {
            assert_eq!(resp.status, 200);
            assert_eq!(resp.body, cert_bytes);
            assert_eq!(
                resp.headers,
                vec![("content-type".to_string(), "application/cert-chain+cbor".to_string())]
            );
        },
        other => panic!("expected a verbatim response, got {:?}", other),
    }
}

#[test]
fn none_branch_full_scenario() {
    // GET /articles/foo, backend https://backend.example, signed domain
    // pub.example: the backend is fetched at the joined URL, the fallback URL
    // carries the signed domain, and the cert origin is the fallback origin.
    let backend = parse_backend_origin("https://backend.example").unwrap();
    let req = request("/articles/foo");
    let plan = route_preset(None, req, &backend, "pub.example").unwrap();
    let (backend_req, fallback) = match plan {
        DispatchPlan::FetchThenSign { request, fallback_url } => (request, fallback_url),
        other => panic!("expected a backend fetch, got {:?}", other),
    };
    assert_eq!(backend_req.url.to_url_string(), "https://backend.example/articles/foo");
    assert_eq!(backend_req.method, Method::Get);
    assert_eq!(fallback.to_url_string(), "https://pub.example/articles/foo");
    assert_eq!(fallback.cert_origin(), "https://pub.example");

    let payload = HttpResponseData {
        status: 200,
        headers: vec![("content-type".to_string(), "text/html".to_string())],
        body: b"<html></html>".to_vec(),
    };
    let task = on_backend_response(fallback, Ok(payload)).unwrap();
    let params = build_signing_params(task).unwrap();
    assert_eq!(params.status_code, 200);
    assert!(!params.skip_process_link);
    assert_eq!(params.fallback_url, "https://pub.example/articles/foo");
    assert_eq!(params.cert_origin, "https://pub.example");
    assert_eq!(params.payload_body, b"<html></html>".to_vec());
    assert_eq!(
        params.payload_headers,
        vec![("content-type".to_string(), "text/html".to_string())]
    );
}

#[test]
fn fallback_authority_never_backend() {
    // Whatever authority the backend origin carries, the fallback URL's
    // authority is the configured signed-domain host.
    let backend = parse_backend_origin("https://internal-3.backend.example:8443").unwrap();
    let req = request("/a?x=1");
    let plan = route_preset(None, req, &backend, "pub.example").unwrap();
    match plan {
        DispatchPlan::FetchThenSign { request, fallback_url } => {
            assert_eq!(fallback_url.authority, "pub.example");
            assert_eq!(request.url.authority, "internal-3.backend.example:8443");
            assert_eq!(fallback_url.to_url_string(), "https://pub.example/a?x=1");
        },
        other => panic!("expected a backend fetch, got {:?}", other),
    }
}

#[test]
fn cert_origin_ignores_backend_address() {
    // Two fallback URLs with the same scheme and authority have the same cert
    // origin, whatever backend produced them.
    let from_one_backend = parts("https", "pub.example", "/articles/foo", None);
    let from_another = parts("https", "pub.example", "/other/path", Some("q=1"));
    assert_eq!(from_one_backend.cert_origin(), from_another.cert_origin());
    assert_eq!(from_one_backend.cert_origin(), "https://pub.example");
}

#[test]
fn to_be_signed_keeps_resolver_target() {
    let backend = parts("https", "backend.example", "/", None);
    let payload = HttpResponseData {
        status: 200,
        headers: Vec::new(),
        body: b"ocsp".to_vec(),
    };
    let preset = PresetContent::ToBeSigned {
        url: "https://pub.example/.well-known/sxg-validity".to_string(),
        payload,
    };
    let req = request("/.well-known/sxg-validity");
    let plan = route_preset(Some(preset), req, &backend, "pub.example").unwrap();
    match plan {
        DispatchPlan::Sign(task) => {
            assert_eq!(
                task.fallback_url.to_url_string(),
                "https://pub.example/.well-known/sxg-validity"
            );
            assert_eq!(task.payload.body, b"ocsp".to_vec());
        },
        other => panic!("expected a signing task, got {:?}", other),
    }
}

#[test]
fn to_be_signed_rejects_bad_target() {
    let backend = parts("https", "backend.example", "/", None);
    let payload = HttpResponseData { status: 200, headers: Vec::new(), body: Vec::new() };
    let preset = PresetContent::ToBeSigned { url: "not a url".to_string(), payload };
    let req = request("/x");
    let r = route_preset(Some(preset), req, &backend, "pub.example");
    assert_eq!(r, Err(ProxyError::MalformedPresetUrl));
}

#[test]
fn non_success_payload_is_not_signed() {
    // A 404 from the backend must not be wrapped in a status-200 exchange:
    // assembling the signing call errors instead.
    let task = SignTask {
        fallback_url: parts("https", "pub.example", "/missing", None),
        payload: HttpResponseData {
            status: 404,
            headers: Vec::new(),
            body: b"not found".to_vec(),
        },
    };
    assert_eq!(build_signing_params(task), Err(ProxyError::PayloadNotSuccess(404)));
}

#[test]
fn fallback_url_without_origin_is_not_signed() {
    // A fallback URL lacking a scheme or an authority can name no origin to
    // sign for; assembling the signing call refuses it.
    let payload_ok = || HttpResponseData {
        status: 200,
        headers: Vec::new(),
        body: b"<html></html>".to_vec(),
    };
    let no_scheme = SignTask {
        fallback_url: parts("", "pub.example", "/a", None),
        payload: payload_ok(),
    };
    assert_eq!(build_signing_params(no_scheme), Err(ProxyError::FallbackMissingScheme));
    let no_authority = SignTask {
        fallback_url: parts("https", "", "/a", None),
        payload: payload_ok(),
    };
    assert_eq!(build_signing_params(no_authority), Err(ProxyError::FallbackMissingAuthority));
    // The URL is checked before the payload's status.
    let no_scheme_and_404 = SignTask {
        fallback_url: parts("", "pub.example", "/a", None),
        payload: HttpResponseData { status: 404, headers: Vec::new(), body: Vec::new() },
    };
    assert_eq!(build_signing_params(no_scheme_and_404), Err(ProxyError::FallbackMissingScheme));
}

#[test]
fn fetch_failure_becomes_500_and_nothing_is_signed() {
    let fallback = parts("https", "pub.example", "/articles/foo", None);
    let r = on_backend_response(fallback, Err("connection reset by peer".to_string()));
    let e = match r {
        Err(e) => e,
        Ok(task) => panic!("a failed fetch must not yield a signing task: {:?}", task),
    };
    assert_eq!(e, ProxyError::Fetch("connection reset by peer".to_string()));
    let (status, body) = error_response(&e);
    assert_eq!(status, 500);
    assert_eq!(body, "fetch failed: connection reset by peer");
}

#[test]
fn signer_failure_is_surfaced() {
    let r = on_signing_result(Err("certificate chain invalid".to_string()));
    assert_eq!(r, Err(ProxyError::Signing("certificate chain invalid".to_string())));
    let ok = on_signing_result(Ok(vec![1u8, 2, 3]));
    assert_eq!(ok, Ok(vec![1u8, 2, 3]));
}

#[test]
fn canonical_url_resolves_against_signed_domain() {
    let u = canonical_request_url("pub.example", "/articles/foo?page=2").unwrap();
    assert_eq!(u.scheme, "https");
    assert_eq!(u.authority, "pub.example");
    assert_eq!(u.path, "/articles/foo");
    assert_eq!(u.query.as_deref(), Some("page=2"));
    assert_eq!(u.to_url_string(), "https://pub.example/articles/foo?page=2");

    let plain = canonical_request_url("pub.example", "/").unwrap();
    assert_eq!(plain.to_url_string(), "https://pub.example/");
    assert_eq!(plain.query, None);
}

#[test]
fn canonical_url_rejects_bad_inputs() {
    assert_eq!(
        canonical_request_url("", "/x"),
        Err(ProxyError::MalformedSignedDomain)
    );
    assert_eq!(
        canonical_request_url("pub.example", "no-slash"),
        Err(ProxyError::MalformedRequestPath)
    );
    assert_eq!(
        canonical_request_url("pub.example", ""),
        Err(ProxyError::MalformedRequestPath)
    );
}

#[test]
fn http_backend_is_not_eligible_for_signing() {
    let backend = parse_backend_origin("http://backend.example").unwrap();
    assert_eq!(backend.scheme, "http");
    let req = request("/a");
    let r = route_preset(None, req, &backend, "pub.example");
    assert_eq!(r, Err(ProxyError::FallbackNotEligible));
}

#[test]
fn empty_signed_domain_is_not_eligible() {
    let backend = parse_backend_origin("https://backend.example").unwrap();
    let r = route_preset(None, request("/a"), &backend, "");
    assert_eq!(r, Err(ProxyError::FallbackNotEligible));
}

#[test]
fn backend_origin_parsing_normalizes() {
    // The parser must really parse: scheme and host come back normalized, a
    // default path appears, and ports survive.
    let u = parse_backend_origin("HTTPS://Backend.Example").unwrap();
    assert_eq!(u.scheme, "https");
    assert_eq!(u.authority, "backend.example");
    assert_eq!(u.path, "/");
    let with_port = parse_backend_origin("https://backend.example:8443").unwrap();
    assert_eq!(with_port.authority, "backend.example:8443");
}

#[test]
fn backend_origin_parsing_rejects_non_origins() {
    assert_eq!(parse_backend_origin("not a url"), Err(ProxyError::MalformedBackendUrl));
    // No authority: a URL like this cannot name an origin to fetch from.
    assert_eq!(
        parse_backend_origin("mailto:someone@example.com"),
        Err(ProxyError::MalformedBackendUrl)
    );
}

#[test]
fn query_splitting_edges() {
    // The split happens at the first `?`; an empty query is still a query.
    let u = canonical_request_url("pub.example", "/?a=b").unwrap();
    assert_eq!(u.path, "/");
    assert_eq!(u.query.as_deref(), Some("a=b"));
    let v = canonical_request_url("pub.example", "/p?").unwrap();
    assert_eq!(v.path, "/p");
    assert_eq!(v.query.as_deref(), Some(""));
    let w = canonical_request_url("pub.example", "/p?x?y").unwrap();
    assert_eq!(w.path, "/p");
    assert_eq!(w.query.as_deref(), Some("x?y"));
}

#[test]
fn post_method_is_forwarded() {
    let backend = parse_backend_origin("https://backend.example").unwrap();
    let req = HttpRequestData {
        method: Method::Post,
        path_and_query: "/submit".to_string(),
        headers: Vec::new(),
        body: b"payload".to_vec(),
    };
    match route_preset(None, req, &backend, "pub.example").unwrap() {
        DispatchPlan::FetchThenSign { request, .. } => {
            assert_eq!(request.method, Method::Post);
            assert_eq!(request.body, b"payload".to_vec());
        },
        other => panic!("expected a backend fetch, got {:?}", other),
    }
}

#[test]
fn error_rendering_names_each_failure() {
    assert_eq!(
        error_response(&ProxyError::MalformedBackendUrl).1,
        "malformed backend origin URL"
    );
    assert_eq!(
        error_response(&ProxyError::MalformedSignedDomain).1,
        "no usable signed-domain host is configured"
    );
    assert_eq!(
        error_response(&ProxyError::MalformedRequestPath).1,
        "request path is not an absolute path"
    );
    assert_eq!(
        error_response(&ProxyError::MalformedPresetUrl).1,
        "preset content target is not an absolute URL"
    );
    assert_eq!(
        error_response(&ProxyError::FallbackNotEligible).1,
        "request is not eligible for signing under the configured domain"
    );
    assert_eq!(error_response(&ProxyError::InvalidHeaders).1, "structurally invalid headers");
    assert_eq!(
        error_response(&ProxyError::FallbackMissingScheme).1,
        "fallback url missing scheme"
    );
    assert_eq!(
        error_response(&ProxyError::FallbackMissingAuthority).1,
        "fallback url missing authority"
    );
    assert_eq!(
        error_response(&ProxyError::PayloadNotSuccess(404)).1,
        "backend payload status is not 200: 404"
    );
    assert_eq!(
        error_response(&ProxyError::PayloadNotSuccess(0)).1,
        "backend payload status is not 200: 0"
    );
    assert_eq!(
        error_response(&ProxyError::PayloadNotSuccess(65535)).1,
        "backend payload status is not 200: 65535"
    );
    assert_eq!(
        error_response(&ProxyError::Signing("boom".to_string())).1,
        "signing failed: boom"
    );
    assert_eq!(
        error_response(&ProxyError::WouldOverwrite).1,
        "refusing to overwrite an existing file"
    );
}
