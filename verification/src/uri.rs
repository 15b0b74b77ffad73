//! Request-target normalization.
//!
//! Every inbound request is rewritten to carry an absolute URI before it
//! reaches a sandbox: the transport scheme (defaulting to `http`), an
//! authority taken from the `Host` header when present and otherwise from
//! the request target's own authority, and the original path and query. A
//! request offering neither a `Host` header nor a usable authority, or no
//! path, is rejected as malformed before any sandbox exists.
use vstd::prelude::*;

verus! {

/// Rejection of a request whose target cannot be made absolute; surfaced
/// to the client as a malformed-URI failure.
#[derive(PartialEq, Eq, Structural, Clone, Copy, Debug)]
pub struct UriError;

/// The pieces of an inbound request that normalization reads: the
/// request-line scheme and authority host, the path and query, and the
/// raw bytes of the `Host` header if one was sent.
pub struct RequestTarget {
    pub scheme: Option<String>,
    pub authority_host: Option<String>,
    pub path_and_query: Option<String>,
    pub host_header: Option<Vec<u8>>,
}

/// An absolute request target: scheme, authority, and path-and-query,
/// ready to be assembled into a URI.
pub struct AbsoluteTarget {
    pub scheme: String,
    pub authority: String,
    pub path_and_query: String,
}

/// What `String::from_utf8` decodes the bytes to, when they are valid
/// UTF-8.
pub uninterp spec fn utf8_decode(b: Seq<u8>) -> Option<Seq<char>>;

/// Relies on std's `String::from_utf8`: returns the decoded string
/// exactly when the bytes are valid UTF-8.
#[verifier::external_body]
fn decode_utf8(b: Vec<u8>) -> (r: Option<String>)
    ensures
        match r {
            Some(s) => utf8_decode(b@) == Some(s@),
            None => utf8_decode(b@) is None,
        },
{
    String::from_utf8(b).ok()
}

/// Whether the authority of `t` can be derived: from the `Host` header
/// when one was sent (its bytes must then decode), and otherwise from the
/// request target's own authority.
pub open spec fn host_resolves(t: RequestTarget) -> bool {
    match t.host_header {
        Some(h) => utf8_decode(h@) is Some,
        None => t.authority_host is Some,
    }
}

/// Whether `t` normalizes to an absolute target at all.
pub open spec fn target_resolves(t: RequestTarget) -> bool {
    host_resolves(t) && t.path_and_query is Some
}

/// The scheme of the normalized target: the transport scheme when the
/// request named one, and `http` otherwise.
pub open spec fn resolved_scheme(t: RequestTarget) -> Seq<char> {
    match t.scheme {
        Some(s) => s@,
        None => "http"@,
    }
}

/// The authority of the normalized target.
pub open spec fn resolved_authority(t: RequestTarget) -> Seq<char>
    recommends
        host_resolves(t),
{
    match t.host_header {
        Some(h) => utf8_decode(h@)->Some_0,
        None => t.authority_host->Some_0@,
    }
}

/// The path and query of the normalized target.
pub open spec fn resolved_path_and_query(t: RequestTarget) -> Seq<char>
    recommends
        t.path_and_query is Some,
{
    t.path_and_query->Some_0@
}

/// Derives the absolute target of a request, preferring the `Host` header
/// over the request target's own authority, and rejects a request that
/// offers neither (or that lacks a path) as malformed.
pub fn resolve_target(t: RequestTarget) -> (r: Result<AbsoluteTarget, UriError>)
    ensures
        match r {
            Ok(a) => target_resolves(t) && a.scheme@ == resolved_scheme(t) && a.authority@
                == resolved_authority(t) && a.path_and_query@ == resolved_path_and_query(t),
            Err(_) => !target_resolves(t),
        },
{
    let authority = match t.host_header {
        Some(h) => match decode_utf8(h) {
            Some(s) => s,
            None => {
                return Err(UriError);
            },
        },
        None => match t.authority_host {
            Some(a) => a,
            None => {
                return Err(UriError);
            },
        },
    };
    let path_and_query = match t.path_and_query {
        Some(pq) => pq,
        None => {
            return Err(UriError);
        },
    };
    let scheme = match t.scheme {
        Some(s) => s,
        None => "http".to_owned(),
    };
    Ok(AbsoluteTarget { scheme, authority, path_and_query })
}

/// Whether the `http` crate accepts these parts as the scheme, authority,
/// and path-and-query of a URI.
pub uninterp spec fn uri_parts_accepted(
    scheme: Seq<char>,
    authority: Seq<char>,
    path_and_query: Seq<char>,
) -> bool;

/// Declares `http::Uri` so the assembled URI can be carried through, as
/// an opaque value, to the layer that frames requests.
#[verifier::external_type_specification]
#[verifier::external_body]
pub struct ExUri(http::Uri);

/// Relies on `http::uri::Builder`: assembles an absolute URI out of a
/// scheme, an authority, and a path-and-query, and refuses parts that do
/// not form a valid URI.
#[verifier::external_body]
fn assemble_uri(scheme: &str, authority: &str, path_and_query: &str) -> (r: Option<http::Uri>)
    ensures
        r is Some <==> uri_parts_accepted(scheme@, authority@, path_and_query@),
{
    http::Uri::builder()
        .scheme(scheme)
        .authority(authority)
        .path_and_query(path_and_query)
        .build()
        .ok()
}

/// Normalizes a request target into an absolute URI. Succeeds exactly
/// when an authority can be derived, a path is present, and the parts
/// form a valid URI; any other request is rejected as malformed.
pub fn normalize_uri(t: RequestTarget) -> (r: Result<(AbsoluteTarget, http::Uri), UriError>)
    ensures
        match r {
            Ok(p) => target_resolves(t) && uri_parts_accepted(
                resolved_scheme(t),
                resolved_authority(t),
                resolved_path_and_query(t),
            ) && p.0.scheme@ == resolved_scheme(t) && p.0.authority@ == resolved_authority(t)
                && p.0.path_and_query@ == resolved_path_and_query(t),
            Err(_) => !target_resolves(t) || !uri_parts_accepted(
                resolved_scheme(t),
                resolved_authority(t),
                resolved_path_and_query(t),
            ),
        },
{
    let a = match resolve_target(t) {
        Ok(a) => a,
        Err(e) => {
            return Err(e);
        },
    };
    match assemble_uri(a.scheme.as_str(), a.authority.as_str(), a.path_and_query.as_str()) {
        Some(u) => Ok((a, u)),
        None => Err(UriError),
    }
}

/// Law: a request with no `Host` header and no usable authority never
/// normalizes, so it is rejected as malformed before any sandbox is
/// constructed.
pub proof fn lemma_missing_host_rejected(t: RequestTarget)
    requires
        t.host_header is None,
        t.authority_host is None,
    ensures
        !target_resolves(t),
{
}

} // verus!
