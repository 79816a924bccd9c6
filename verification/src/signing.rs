use vstd::prelude::*;

use crate::dispatch::SignTask;
use crate::errors::ProxyError;
use crate::headers::{headers_model, transform_payload_headers, transform_payload_headers_spec};

verus! {

/// The status code of the inner response of every exchange this proxy signs.
pub const SIGNED_STATUS: u16 = 200;

/// Everything the external signer is invoked with, fully assembled.  The
/// caller adds only capabilities: the current time, the signer bound to the
/// certificate chain, the fetcher for subresource-integrity lookups, and a
/// header-integrity cache (a cache that always misses is fine).
#[derive(Debug, PartialEq, Eq)]
pub struct SigningParams {
    pub payload_body: Vec<u8>,
    pub payload_headers: Vec<(String, String)>,
    pub skip_process_link: bool,
    pub status_code: u16,
    pub fallback_url: String,
    pub cert_origin: String,
}

/// The fallback URL names the origin the exchange is signed for: both its
/// scheme and its authority must be present.
pub open spec fn fallback_origin_present(u: crate::url::UrlModel) -> bool {
    u.scheme.len() > 0 && u.authority.len() > 0
}

/// Assembles the signing call for a payload.  A fallback URL without a scheme
/// or an authority is refused — no origin could be derived from it.  Only a
/// status-200 payload is ever signed; the inner status code is fixed at 200,
/// `Link`-header processing is never skipped, and the certificate origin is
/// derived from the fallback URL alone.
pub fn build_signing_params(task: SignTask) -> (r: Result<SigningParams, ProxyError>)
    ensures
        task.fallback_url@.scheme.len() == 0 ==> r == Err::<SigningParams, ProxyError>(
            ProxyError::FallbackMissingScheme,
        ),
        task.fallback_url@.scheme.len() > 0 && task.fallback_url@.authority.len() == 0 ==> r
            == Err::<SigningParams, ProxyError>(ProxyError::FallbackMissingAuthority),
        fallback_origin_present(task.fallback_url@) && task.payload.status != SIGNED_STATUS ==> r
            == Err::<SigningParams, ProxyError>(ProxyError::PayloadNotSuccess(task.payload.status)),
        fallback_origin_present(task.fallback_url@) && task.payload.status == SIGNED_STATUS
            ==> match transform_payload_headers_spec(
            headers_model(task.payload.headers@),
        ) {
            Err(e) => r == Err::<SigningParams, ProxyError>(e),
            Ok(hm) => {
                &&& r matches Ok(p)
                &&& p.status_code == SIGNED_STATUS
                &&& p.skip_process_link == false
                &&& p.payload_body == task.payload.body
                &&& headers_model(p.payload_headers@) == hm
                &&& p.fallback_url@ == task.fallback_url@.text()
                &&& p.cert_origin@ == task.fallback_url@.origin_text()
            },
        },
{
    if task.fallback_url.scheme.as_str().unicode_len() == 0 {
        return Err(ProxyError::FallbackMissingScheme);
    }
    if task.fallback_url.authority.as_str().unicode_len() == 0 {
        return Err(ProxyError::FallbackMissingAuthority);
    }
    if task.payload.status != SIGNED_STATUS {
        return Err(ProxyError::PayloadNotSuccess(task.payload.status));
    }
    let payload_headers = match transform_payload_headers(&task.payload.headers) {
        Ok(h) => h,
        Err(e) => {
            return Err(e);
        },
    };
    let fallback_url = task.fallback_url.to_url_string();
    let cert_origin = task.fallback_url.cert_origin();
    Ok(
        SigningParams {
            payload_body: task.payload.body,
            payload_headers,
            skip_process_link: false,
            status_code: SIGNED_STATUS,
            fallback_url,
            cert_origin,
        },
    )
}

/// Accepts the signer's outcome: the signed exchange bytes pass through
/// unchanged, a signer failure is surfaced and nothing is served in its
/// place.
pub fn on_signing_result(outcome: Result<Vec<u8>, String>) -> (r: Result<Vec<u8>, ProxyError>)
    ensures
        outcome matches Ok(sxg) ==> r == Ok::<Vec<u8>, ProxyError>(sxg),
        outcome matches Err(m) ==> r == Err::<Vec<u8>, ProxyError>(ProxyError::Signing(m)),
{
    match outcome {
        Ok(sxg) => Ok(sxg),
        Err(m) => Err(ProxyError::Signing(m)),
    }
}

} // verus!
