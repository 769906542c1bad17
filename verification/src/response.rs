//! The response model: status, header list and body, with builders for
//! every terminal response the router produces by itself.

use vstd::prelude::*;
use vstd::string::StringExecFns;
use crate::policy::{
    HeaderList, header_view, preflight_policy, method_not_allowed_policy, not_found_policy,
    bundle_policy, preflight_headers, method_not_allowed_headers, not_found_headers,
    bundle_headers,
};

verus! {

/// The mathematical content of a response.
#[verifier::ext_equal]
pub struct ResponseData {
    pub status: u16,
    pub headers: Seq<(Seq<char>, Seq<char>)>,
    pub body: Seq<char>,
}

/// A complete HTTP response as the router hands it to the platform.
#[derive(PartialEq, Eq, Debug)]
pub struct HttpResponse {
    pub status: u16,
    pub headers: HeaderList,
    pub body: String,
}

impl View for HttpResponse {
    type V = ResponseData;

    open spec fn view(&self) -> ResponseData {
        ResponseData { status: self.status, headers: header_view(self.headers@), body: self.body@ }
    }
}

/// The terminal `OPTIONS` preflight response: empty body, `Allow` plus the
/// long-lived cache directive.
pub open spec fn spec_preflight_response() -> ResponseData {
    ResponseData { status: 200, headers: preflight_policy(), body: Seq::<char>::empty() }
}

/// The terminal `405` response for a disallowed method.
pub open spec fn spec_method_not_allowed_response() -> ResponseData {
    ResponseData {
        status: 405,
        headers: method_not_allowed_policy(),
        body: "This method is not allowed\n"@,
    }
}

/// The robots response: fixed body, no headers beyond the platform's own.
pub open spec fn spec_robots_response() -> ResponseData {
    ResponseData {
        status: 200,
        headers: Seq::<(Seq<char>, Seq<char>)>::empty(),
        body: "User-agent: *\nDisallow:"@,
    }
}

/// The aggressively cached `404`: the body names the path that missed.
pub open spec fn spec_not_found_response(path: Seq<char>) -> ResponseData {
    ResponseData { status: 404, headers: not_found_policy(), body: path + ": Not Found"@ }
}

/// The `400` for a version outside the supported set: the body embeds the
/// offending version string, under the same cache policy as the `404`.
pub open spec fn spec_unsupported_version_response(version: Seq<char>) -> ResponseData {
    ResponseData {
        status: 400,
        headers: not_found_policy(),
        body: "requested version "@ + version + " does not exist"@,
    }
}

/// A successful polyfill bundle response around the resolver's output.
pub open spec fn spec_bundle_response(body: Seq<char>) -> ResponseData {
    ResponseData { status: 200, headers: bundle_policy(), body }
}

/// Builds the preflight response.
pub fn preflight_response() -> (r: HttpResponse)
    ensures
        r@ == spec_preflight_response(),
{
    let r = HttpResponse { status: 200, headers: preflight_headers(), body: String::new() };
    proof {
        assert(r@ =~= spec_preflight_response());
    }
    r
}

/// Builds the `405` response.
pub fn method_not_allowed_response() -> (r: HttpResponse)
    ensures
        r@ == spec_method_not_allowed_response(),
{
    let r = HttpResponse {
        status: 405,
        headers: method_not_allowed_headers(),
        body: String::from_str("This method is not allowed\n"),
    };
    proof {
        assert(r@ =~= spec_method_not_allowed_response());
    }
    r
}

/// Builds the robots response.
pub fn robots_response() -> (r: HttpResponse)
    ensures
        r@ == spec_robots_response(),
{
    let r = HttpResponse {
        status: 200,
        headers: Vec::new(),
        body: String::from_str("User-agent: *\nDisallow:"),
    };
    proof {
        assert(r@ =~= spec_robots_response());
    }
    r
}

/// Builds the `404` response for an unmatched path.
pub fn not_found_response(path: &str) -> (r: HttpResponse)
    ensures
        r@ == spec_not_found_response(path@),
{
    let r = HttpResponse {
        status: 404,
        headers: not_found_headers(),
        body: String::from_str(path).concat(": Not Found"),
    };
    proof {
        assert(r@ =~= spec_not_found_response(path@));
    }
    r
}

/// Builds the `400` response for a version outside the supported set.
pub fn unsupported_version_response(version: &str) -> (r: HttpResponse)
    ensures
        r@ == spec_unsupported_version_response(version@),
{
    let r = HttpResponse {
        status: 400,
        headers: not_found_headers(),
        body: String::from_str("requested version ").concat(version).concat(" does not exist"),
    };
    proof {
        assert(r@ =~= spec_unsupported_version_response(version@));
    }
    r
}

/// Wraps the resolver's output in a bundle response.
pub fn bundle_response(body: String) -> (r: HttpResponse)
    ensures
        r@ == spec_bundle_response(body@),
        r@.headers.contains(("Vary"@, "User-Agent, Accept-Encoding"@)),
{
    let r = HttpResponse { status: 200, headers: bundle_headers(), body };
    proof {
        assert(r@ =~= spec_bundle_response(r.body@));
        crate::policy::lemma_bundle_policy_varies_on_user_agent();
    }
    r
}

/// The contextual message wrapped around a resolver failure before it is
/// surfaced as a fatal internal error.
pub fn resolver_failure_message(cause: &str) -> (r: String)
    ensures
        r@ == "failed to get_polyfill_string_stream: "@ + cause@,
{
    String::from_str("failed to get_polyfill_string_stream: ").concat(cause)
}

} // verus!
