use vstd::prelude::*;

use crate::text::{decimal_digits, u16_decimal};

verus! {

/// Every failure the request pipeline can surface.  No variant is retried and
/// none is fatal to the process: the dispatcher turns any of these into a
/// single diagnostic HTTP 500 response for the one request in flight.
#[derive(Debug, Clone, PartialEq, Eq)]
pub enum ProxyError {
    /// The configured backend origin could not be parsed as an absolute URL.
    MalformedBackendUrl,
    /// No usable signed-domain host is configured.
    MalformedSignedDomain,
    /// The inbound request path is not an absolute path (it must begin with `/`).
    MalformedRequestPath,
    /// The target URL supplied with preset content to be signed is not a
    /// well-formed absolute URL.
    MalformedPresetUrl,
    /// The request is not eligible to be signed under the configured domain,
    /// so no fallback URL can be derived for it.
    FallbackNotEligible,
    /// A header set is structurally invalid (a non-ASCII name or value, or a
    /// duplicated `Host` header).
    InvalidHeaders,
    /// The fallback URL handed to the signing step has no scheme.
    FallbackMissingScheme,
    /// The fallback URL handed to the signing step has no authority.
    FallbackMissingAuthority,
    /// The backend payload does not have status 200, which is the only status
    /// this proxy signs.
    PayloadNotSuccess(u16),
    /// An outbound fetch failed; the string renders the underlying I/O error.
    Fetch(String),
    /// The external signer failed; the string renders its error.
    Signing(String),
    /// An output file of the certificate-issuance helper already exists and
    /// is never overwritten.
    WouldOverwrite,
}

impl ProxyError {
    /// The diagnostic text used in the body of an error response.
    pub open spec fn rendering(self) -> Seq<char> {
        match self {
            ProxyError::MalformedBackendUrl => "malformed backend origin URL"@,
            ProxyError::MalformedSignedDomain => "no usable signed-domain host is configured"@,
            ProxyError::MalformedRequestPath => "request path is not an absolute path"@,
            ProxyError::MalformedPresetUrl => "preset content target is not an absolute URL"@,
            ProxyError::FallbackNotEligible => "request is not eligible for signing under the configured domain"@,
            ProxyError::InvalidHeaders => "structurally invalid headers"@,
            ProxyError::FallbackMissingScheme => "fallback url missing scheme"@,
            ProxyError::FallbackMissingAuthority => "fallback url missing authority"@,
            ProxyError::PayloadNotSuccess(s) => "backend payload status is not 200: "@
                + decimal_digits(s as nat),
            ProxyError::Fetch(m) => "fetch failed: "@ + m@,
            ProxyError::Signing(m) => "signing failed: "@ + m@,
            ProxyError::WouldOverwrite => "refusing to overwrite an existing file"@,
        }
    }

    /// Renders the error for the body of a diagnostic response.
    pub fn describe(&self) -> (r: String)
        ensures
            r@ == self.rendering(),
    {
        match self {
            ProxyError::MalformedBackendUrl => String::from_str("malformed backend origin URL"),
            ProxyError::MalformedSignedDomain => String::from_str(
                "no usable signed-domain host is configured",
            ),
            ProxyError::MalformedRequestPath => String::from_str(
                "request path is not an absolute path",
            ),
            ProxyError::MalformedPresetUrl => String::from_str(
                "preset content target is not an absolute URL",
            ),
            ProxyError::FallbackNotEligible => String::from_str(
                "request is not eligible for signing under the configured domain",
            ),
            ProxyError::InvalidHeaders => String::from_str("structurally invalid headers"),
            ProxyError::FallbackMissingScheme => String::from_str("fallback url missing scheme"),
            ProxyError::FallbackMissingAuthority => String::from_str(
                "fallback url missing authority",
            ),
            ProxyError::PayloadNotSuccess(s) => String::from_str(
                "backend payload status is not 200: ",
            ).concat(u16_decimal(*s).as_str()),
            ProxyError::Fetch(m) => String::from_str("fetch failed: ").concat(m.as_str()),
            ProxyError::Signing(m) => String::from_str("signing failed: ").concat(m.as_str()),
            ProxyError::WouldOverwrite => String::from_str(
                "refusing to overwrite an existing file",
            ),
        }
    }
}

} // verus!
