//! The router's cross-cutting guarantees, each proved over the routing
//! and policy definitions the executable functions are verified against.

use vstd::prelude::*;
use crate::dispatch::{lemma_manifest_path_decompose, lemma_manifest_path_parts, manifest_path_of,
    manifest_prefix, manifest_suffix, spec_dispatch, ClassData};
use crate::method::{is_blocked_method, is_read_method, Method};
use crate::policy::{manifest_policy, method_not_allowed_policy, preflight_policy};
use crate::response::{spec_bundle_response, spec_method_not_allowed_response,
    spec_not_found_response, spec_preflight_response};
use crate::router::{spec_rendered_response, spec_route, AssetData, OutcomeData};
use crate::versions::is_supported_version;

verus! {

/// Every disallowed method, on every path and query, is answered with a
/// terminal `405` whose one header allows `GET, HEAD`.
pub proof fn lemma_blocked_method_always_405(
    m: Method,
    path: Seq<char>,
    query: Seq<(Seq<char>, Seq<char>)>,
)
    requires
        is_blocked_method(m),
    ensures
        spec_route(m, path, query) == OutcomeData::Done(spec_method_not_allowed_response()),
        spec_method_not_allowed_response().status == 405,
        spec_method_not_allowed_response().headers == seq![("allow"@, "GET, HEAD"@)],
{
    assert(method_not_allowed_policy() =~= seq![("allow"@, "GET, HEAD"@)]);
}

/// `OPTIONS`, on every path and query, is answered with a terminal `200`
/// with an empty body whose `Allow` header lists the three read verbs.
pub proof fn lemma_options_always_preflight(path: Seq<char>, query: Seq<(Seq<char>, Seq<char>)>)
    ensures
        spec_route(Method::Options, path, query) == OutcomeData::Done(spec_preflight_response()),
        spec_preflight_response().status == 200,
        spec_preflight_response().body == Seq::<char>::empty(),
        preflight_policy()[0] == ("allow"@, "OPTIONS, GET, HEAD"@),
{
}

/// Every version of the supported set has a manifest route: a read
/// request for it renders that version's manifest, served as JSON with a
/// one-day cache policy.
pub proof fn lemma_manifest_route_for_every_version(
    m: Method,
    v: Seq<char>,
    query: Seq<(Seq<char>, Seq<char>)>,
)
    requires
        is_read_method(m),
        is_supported_version(v),
    ensures
        spec_route(m, manifest_path_of(v), query) == OutcomeData::Render(AssetData::Manifest(v)),
        forall|body: Seq<char>|
            (#[trigger] spec_rendered_response(AssetData::Manifest(v), body)).status == 200
                && spec_rendered_response(AssetData::Manifest(v), body).headers
                == manifest_policy(),
        manifest_policy()[0] == ("content-type"@, "application/json"@),
        manifest_policy()[3] == (
            "Cache-Control"@,
            "max-age=86400, stale-while-revalidate=86400, stale-if-error=86400"@,
        ),
{
    lemma_manifest_path_parts(v);
    let p = manifest_path_of(v);
    reveal_strlit("/v3/json/library-");
    reveal_strlit(".json");
    reveal_strlit("/");
    reveal_strlit("/img/logo.svg");
    reveal_strlit("/robots.txt");
    assert(manifest_prefix().len() == 17);
    assert(manifest_suffix().len() == 5);
    assert(p.len() >= 22);
    assert(p != "/"@);
    assert(p != "/img/logo.svg"@);
    assert(p != "/robots.txt"@);
    assert(spec_dispatch(p) == ClassData::JsonManifest(v));
}

/// Manifest routes and the supported version set correspond one to one:
/// a path is classified as the manifest of a version only when that
/// version is in the set and the path is exactly its manifest route.
pub proof fn lemma_manifest_class_only_for_supported(p: Seq<char>, v: Seq<char>)
    requires
        spec_dispatch(p) == ClassData::JsonManifest(v),
    ensures
        is_supported_version(v),
        p == manifest_path_of(v),
{
    lemma_manifest_path_decompose(p);
}

/// Routing is a pure function of method, path and query: two identical
/// requests get identical decisions, so identical header sets and, for
/// the embedded documents, identical bodies.
pub proof fn lemma_identical_requests_identical_outcomes(
    m1: Method,
    path1: Seq<char>,
    query1: Seq<(Seq<char>, Seq<char>)>,
    m2: Method,
    path2: Seq<char>,
    query2: Seq<(Seq<char>, Seq<char>)>,
)
    requires
        m1 == m2,
        path1 == path2,
        query1 == query2,
    ensures
        spec_route(m1, path1, query1) == spec_route(m2, path2, query2),
{
}

/// Every bundle response carries `Vary: User-Agent, Accept-Encoding`.
pub proof fn lemma_bundle_response_varies_on_user_agent(body: Seq<char>)
    ensures
        spec_bundle_response(body).headers.contains(("Vary"@, "User-Agent, Accept-Encoding"@)),
{
    crate::policy::lemma_bundle_policy_varies_on_user_agent();
}

/// An unmatched path is answered with a terminal `404` whose body names
/// exactly the path that missed.
pub proof fn lemma_not_found_names_the_path(
    m: Method,
    path: Seq<char>,
    query: Seq<(Seq<char>, Seq<char>)>,
)
    requires
        is_read_method(m),
        spec_dispatch(path) is NotFound,
    ensures
        spec_route(m, path, query) == OutcomeData::Done(spec_not_found_response(path)),
        spec_not_found_response(path).status == 404,
        spec_not_found_response(path).body == path + ": Not Found"@,
{
}

} // verus!
