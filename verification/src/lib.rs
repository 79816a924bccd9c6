//! A verified core for a signed-exchange reverse proxy.
//!
//! The library holds the per-request decision logic of a proxy that wraps
//! backend responses into Signed HTTP Exchanges: routing a request to one of
//! three handling strategies, the header transformations that make requests
//! and payloads signing-safe, fallback-URL and certificate-origin resolution,
//! and the assembly of the parameters handed to the external signer.  All
//! network and process I/O stays outside; callers perform the actions this
//! library decides on and hand the outcomes back.

use vstd::prelude::*;

mod dispatch;
mod errors;
mod headers;
mod issuance;
mod laws;
mod message;
mod signing;
mod text;
mod url;
mod urlparse;

pub use dispatch::{
    error_response, on_backend_response, route_preset, BackendRequest, DispatchPlan, SignTask,
};
pub use errors::ProxyError;
pub use headers::{
    accept_header_value, accept_value, header_entry_wf, headers_model, headers_result_model,
    headers_valid, headers_wf, host_count, is_payload_stripped, is_request_stripped,
    keep_payload_headers, keep_request_headers, payload_stripped, request_stripped,
    transform_payload_headers, transform_payload_headers_spec, transform_request_headers,
    transform_request_headers_spec, AcceptFilter, HeaderModel,
};
pub use issuance::{
    args_model, certificate_args, certificate_request_args, certificate_sha256_args,
    certificate_sha256_command, create_certificate_plan, create_certificate_request_plan,
    create_private_key_plan, private_key_args, public_key_der_args, public_key_der_command,
    sha256_digest_args, sha256_digest_command, write_new_file_guard, CommandSpec,
};
pub use laws::{
    lemma_cert_origin_ignores_everything_else, lemma_fallback_authority_is_signed_domain,
    lemma_transform_payload_idempotent, lemma_transform_request_idempotent,
};
pub use message::{HttpRequestData, HttpResponseData, Method, PresetContent};
pub use signing::{
    build_signing_params, fallback_origin_present, on_signing_result, SigningParams, SIGNED_STATUS,
};
pub use text::{
    decimal_digits, digit_char, lower_char, matches_lower, name_matches, opt_text, to_lower,
    u16_decimal,
};
pub use url::{
    absolute_path, backend_request_url, backend_request_url_spec, canonical_request_url,
    canonical_request_url_spec, fallback_url, fallback_url_spec, qmark_from, split_path_and_query,
    split_path_query, url_result_model, UrlModel, UrlParts,
};
pub use urlparse::{
    accept_components, components_accepted, components_model, components_view,
    parse_backend_origin, parse_preset_target, parse_url_spec, url_components,
};

verus! {

/// The HTTP status code of every response produced for a failed request.
pub const ERROR_STATUS: u16 = 500;

} // verus!
