//! The HTTP security headers added to every response.
use vstd::prelude::*;

verus! {

/// The security headers of every response, as (name, value) pairs.
pub open spec fn security_headers_spec() -> Seq<(Seq<char>, Seq<char>)> {
    seq![
        ("x-content-type-options"@, "nosniff"@),
        ("x-frame-options"@, "DENY"@),
        ("referrer-policy"@, "strict-origin-when-cross-origin"@),
        ("content-security-policy"@, "default-src 'self'; frame-ancestors 'none'; base-uri 'self'; form-action 'self'"@),
        ("permissions-policy"@, "camera=(), microphone=(), geolocation=()"@),
    ]
}

/// The security headers added to every response: no MIME sniffing, no
/// framing, a strict referrer policy, a same-origin content security policy
/// and no camera, microphone or geolocation.
pub fn security_header_pairs() -> (r: Vec<(&'static str, &'static str)>)
    ensures
        r@.len() == security_headers_spec().len(),
        forall|i: int|
            0 <= i < r@.len() ==> (#[trigger] r@[i].0@, r@[i].1@) == security_headers_spec()[i],
{
    let mut v: Vec<(&'static str, &'static str)> = Vec::new();
    v.push(("x-content-type-options", "nosniff"));
    v.push(("x-frame-options", "DENY"));
    v.push(("referrer-policy", "strict-origin-when-cross-origin"));
    v.push(
        (
            "content-security-policy",
            "default-src 'self'; frame-ancestors 'none'; base-uri 'self'; form-action 'self'",
        ),
    );
    v.push(("permissions-policy", "camera=(), microphone=(), geolocation=()"));
    v
}

/// The name of the request-id header.
pub fn request_id_header() -> (r: &'static str)
    ensures
        r@ == "x-request-id"@,
{
    "x-request-id"
}

} // verus!
