use vstd::prelude::*;

use crate::errors::ProxyError;
use crate::text::opt_text;
use crate::url::{url_result_model, UrlModel, UrlParts};

verus! {

/// The components of `s` parsed as an absolute URL — scheme, authority
/// (`host[:port]`), path and query — or `None` where `s` is not one.
pub uninterp spec fn url_components(s: Seq<char>) -> Option<
    (Seq<char>, Seq<char>, Seq<char>, Option<Seq<char>>),
>;

/// Relies on `url::Url::parse` and the accessors `scheme`, `authority`,
/// `path` and `query`: parsing fails exactly on strings that are no absolute
/// URL, and the parsed components depend on the input string alone.
#[verifier::external_body]
fn parse_url_components(s: &str) -> (r: Option<(String, String, String, Option<String>)>)
    ensures
        (r is Some) <==> (url_components(s@) is Some),
        r matches Some(c) ==> url_components(s@) == Some((c.0@, c.1@, c.2@, opt_text(c.3))),
{
    match url::Url::parse(s) {
        Ok(u) => {
            let query = match u.query() {
                Some(q) => Some(q.to_string()),
                None => None,
            };
            Some((u.scheme().to_string(), u.authority().to_string(), u.path().to_string(), query))
        },
        Err(_) => None,
    }
}

/// Parsed components this proxy accepts: scheme and authority present and an
/// absolute path.  `url::Url::parse` also accepts URLs without an authority
/// (`mailto:`, `data:`); those cannot name an origin and are rejected here.
pub open spec fn components_accepted(c: (Seq<char>, Seq<char>, Seq<char>, Option<Seq<char>>)) -> bool {
    c.0.len() > 0 && c.1.len() > 0 && c.2.len() > 0 && c.2[0] == '/'
}

/// The URL model formed from parsed components.
pub open spec fn components_model(c: (Seq<char>, Seq<char>, Seq<char>, Option<Seq<char>>)) -> UrlModel {
    UrlModel { scheme: c.0, authority: c.1, path: c.2, query: c.3 }
}

/// The view of owned parsed components.
pub open spec fn components_view(c: (String, String, String, Option<String>)) -> (
    Seq<char>,
    Seq<char>,
    Seq<char>,
    Option<Seq<char>>,
) {
    (c.0@, c.1@, c.2@, opt_text(c.3))
}

/// What parsing the string `s` as a URL of this proxy yields: the accepted
/// components, or `bad` where `s` does not parse or lacks an origin.
pub open spec fn parse_url_spec(s: Seq<char>, bad: ProxyError) -> Result<UrlModel, ProxyError> {
    match url_components(s) {
        None => Err(bad),
        Some(c) => if components_accepted(c) {
            Ok(components_model(c))
        } else {
            Err(bad)
        },
    }
}

/// Validates parsed URL components into the library's URL type; `bad` is
/// returned on components no proxy URL can be built from.
pub fn accept_components(c: (String, String, String, Option<String>), bad: ProxyError) -> (r:
    Result<UrlParts, ProxyError>)
    ensures
        components_accepted(components_view(c)) ==> url_result_model(r) == Ok::<
            UrlModel,
            ProxyError,
        >(components_model(components_view(c))),
        !components_accepted(components_view(c)) ==> r == Err::<UrlParts, ProxyError>(bad),
        r matches Ok(u) ==> u@.wf(),
{
    let (scheme, authority, path, query) = c;
    if scheme.as_str().unicode_len() == 0 || authority.as_str().unicode_len() == 0
        || path.as_str().unicode_len() == 0 || path.as_str().get_char(0) != '/' {
        return Err(bad);
    }
    Ok(UrlParts { scheme, authority, path, query })
}

/// Parses the configured backend origin.
pub fn parse_backend_origin(s: &str) -> (r: Result<UrlParts, ProxyError>)
    ensures
        url_result_model(r) == parse_url_spec(s@, ProxyError::MalformedBackendUrl),
        r matches Ok(u) ==> u@.wf(),
{
    match parse_url_components(s) {
        None => Err(ProxyError::MalformedBackendUrl),
        Some(c) => accept_components(c, ProxyError::MalformedBackendUrl),
    }
}

/// Parses the target URL supplied with preset content that is to be signed.
pub fn parse_preset_target(s: &str) -> (r: Result<UrlParts, ProxyError>)
    ensures
        url_result_model(r) == parse_url_spec(s@, ProxyError::MalformedPresetUrl),
        r matches Ok(u) ==> u@.wf(),
{
    match parse_url_components(s) {
        None => Err(ProxyError::MalformedPresetUrl),
        Some(c) => accept_components(c, ProxyError::MalformedPresetUrl),
    }
}

} // verus!
