use vstd::prelude::*;

use crate::errors::ProxyError;
use crate::headers::{
    headers_model, transform_request_headers, transform_request_headers_spec, AcceptFilter,
};
use crate::message::{HttpRequestData, HttpResponseData, Method, PresetContent};
use crate::url::{
    backend_request_url, backend_request_url_spec, fallback_url, fallback_url_spec, UrlParts,
};
use crate::urlparse::{parse_preset_target, parse_url_spec};
use crate::ERROR_STATUS;

verus! {

/// A payload bound for the signer, together with the fallback URL the signed
/// exchange will name.
#[derive(Debug, PartialEq, Eq)]
pub struct SignTask {
    pub fallback_url: UrlParts,
    pub payload: HttpResponseData,
}

/// The request to forward to the backend: the original method and body, the
/// joined backend URL, and the headers as the policy rewrote them.
#[derive(Debug, PartialEq, Eq)]
pub struct BackendRequest {
    pub method: Method,
    pub url: UrlParts,
    pub headers: Vec<(String, String)>,
    pub body: Vec<u8>,
}

/// The one strategy chosen for a request: answer verbatim, sign a payload the
/// resolver supplied, or fetch the backend first and sign what it returns.
#[derive(Debug, PartialEq, Eq)]
pub enum DispatchPlan {
    Respond(HttpResponseData),
    Sign(SignTask),
    FetchThenSign { request: BackendRequest, fallback_url: UrlParts },
}

/// Routes a request on the preset-content resolver's answer.  This is the
/// three-way branch at the top of every request:
///
/// * `Direct` content is returned exactly as the resolver supplied it;
/// * `ToBeSigned` content keeps the resolver's target as the fallback URL,
///   after the request headers pass validation under `AcceptsSxg`;
/// * with no preset content the request is bound for the backend: its URL is
///   joined from the backend origin, the fallback URL is derived from it with
///   the signed-domain host as authority, and the request headers are
///   rewritten under `PrefersSxg`.
pub fn route_preset(
    decision: Option<PresetContent>,
    req: HttpRequestData,
    backend_origin: &UrlParts,
    html_host: &str,
) -> (r: Result<DispatchPlan, ProxyError>)
    requires
        backend_origin@.wf(),
    ensures
        decision matches Some(PresetContent::Direct(resp)) ==> r == Ok::<
            DispatchPlan,
            ProxyError,
        >(DispatchPlan::Respond(resp)),
        decision matches Some(PresetContent::ToBeSigned { url, payload }) ==> match parse_url_spec(
            url@,
            ProxyError::MalformedPresetUrl,
        ) {
            Err(e) => r == Err::<DispatchPlan, ProxyError>(e),
            Ok(fm) => match transform_request_headers_spec(
                headers_model(req.headers@),
                AcceptFilter::AcceptsSxg,
            ) {
                Err(e) => r == Err::<DispatchPlan, ProxyError>(e),
                Ok(_) => {
                    &&& r matches Ok(DispatchPlan::Sign(task))
                    &&& task.fallback_url@ == fm
                    &&& task.payload == payload
                },
            },
        },
        decision is None ==> match backend_request_url_spec(backend_origin@, req.path_and_query@) {
            Err(e) => r == Err::<DispatchPlan, ProxyError>(e),
            Ok(bm) => match fallback_url_spec(bm, html_host@) {
                Err(e) => r == Err::<DispatchPlan, ProxyError>(e),
                Ok(fm) => match transform_request_headers_spec(
                    headers_model(req.headers@),
                    AcceptFilter::PrefersSxg,
                ) {
                    Err(e) => r == Err::<DispatchPlan, ProxyError>(e),
                    Ok(hm) => {
                        &&& r matches Ok(
                            DispatchPlan::FetchThenSign { request, fallback_url: fb },
                        )
                        &&& fb@ == fm
                        &&& request.url@ == bm
                        &&& request.method == req.method
                        &&& headers_model(request.headers@) == hm
                        &&& request.body == req.body
                    },
                },
            },
        },
{
    match decision {
        Some(PresetContent::Direct(resp)) => Ok(DispatchPlan::Respond(resp)),
        Some(PresetContent::ToBeSigned { url, payload }) => {
            let fallback = match parse_preset_target(url.as_str()) {
                Ok(f) => f,
                Err(e) => {
                    return Err(e);
                },
            };
            match transform_request_headers(&req.headers, AcceptFilter::AcceptsSxg) {
                Ok(_) => Ok(DispatchPlan::Sign(SignTask { fallback_url: fallback, payload })),
                Err(e) => Err(e),
            }
        },
        None => {
            let backend_url = match backend_request_url(
                backend_origin,
                req.path_and_query.as_str(),
            ) {
                Ok(u) => u,
                Err(e) => {
                    return Err(e);
                },
            };
            let fb = match fallback_url(&backend_url, html_host) {
                Ok(u) => u,
                Err(e) => {
                    return Err(e);
                },
            };
            let hs = match transform_request_headers(&req.headers, AcceptFilter::PrefersSxg) {
                Ok(h) => h,
                Err(e) => {
                    return Err(e);
                },
            };
            Ok(
                DispatchPlan::FetchThenSign {
                    request: BackendRequest {
                        method: req.method,
                        url: backend_url,
                        headers: hs,
                        body: req.body,
                    },
                    fallback_url: fb,
                },
            )
        },
    }
}

/// Accepts the outcome of the backend fetch.  A response becomes the payload
/// to sign under the fallback URL; a fetch failure is surfaced as an error and
/// nothing is signed.
pub fn on_backend_response(fallback_url: UrlParts, outcome: Result<HttpResponseData, String>) -> (r:
    Result<SignTask, ProxyError>)
    ensures
        outcome matches Ok(resp) ==> {
            &&& r matches Ok(task)
            &&& task.fallback_url == fallback_url
            &&& task.payload == resp
        },
        outcome matches Err(m) ==> r == Err::<SignTask, ProxyError>(ProxyError::Fetch(m)),
{
    match outcome {
        Ok(resp) => Ok(SignTask { fallback_url, payload: resp }),
        Err(m) => Err(ProxyError::Fetch(m)),
    }
}

/// The single point converting any pipeline failure into the user-visible
/// response: HTTP 500 with a rendering of the error as the body.
pub fn error_response(e: &ProxyError) -> (r: (u16, String))
    ensures
        r.0 == ERROR_STATUS,
        r.1@ == e.rendering(),
{
    (ERROR_STATUS, e.describe())
}

} // verus!
