//! The router: method gate, then path dispatch, then either a terminal
//! response, a render task for an embedded document, or a resolver
//! delegation — with the legacy shim applied before a legacy delegation.

use vstd::prelude::*;
use crate::dispatch::{dispatch, spec_dispatch, AssetKind, ClassData, ResourceClass};
use crate::method::{is_blocked_method, method_gate, GateOutcome, Method};
use crate::policy::{home_headers, home_policy, logo_headers, logo_policy, manifest_headers,
    manifest_policy};
use crate::response::{method_not_allowed_response, not_found_response, preflight_response,
    robots_response, spec_method_not_allowed_response, spec_not_found_response,
    spec_preflight_response, spec_robots_response, HttpResponse, ResponseData};
use crate::shim::{query_view, rewrite_legacy, rewritten_path, rewritten_query, PolyfillRequest,
    RequestData};

verus! {

/// A document the platform holds as embedded bytes and renders or copies
/// into the body: the router fixes status and header policy, the content
/// is opaque to it.
#[derive(PartialEq, Eq, Debug)]
pub enum EmbeddedAsset {
    /// The rendered landing page.
    Home,
    /// The inline logo image.
    Logo,
    /// The JSON manifest of the named supported version.
    Manifest(String),
}

/// The mathematical content of an embedded-asset task.
#[verifier::ext_equal]
pub enum AssetData {
    Home,
    Logo,
    Manifest(Seq<char>),
}

impl View for EmbeddedAsset {
    type V = AssetData;

    open spec fn view(&self) -> AssetData {
        match self {
            EmbeddedAsset::Home => AssetData::Home,
            EmbeddedAsset::Logo => AssetData::Logo,
            EmbeddedAsset::Manifest(v) => AssetData::Manifest(v@),
        }
    }
}

/// What the router decides about a request.
#[derive(PartialEq, Eq, Debug)]
pub enum RouteOutcome {
    /// A terminal response, complete as it stands.
    Done(HttpResponse),
    /// Serve an embedded document under the class's header policy.
    Render(EmbeddedAsset),
    /// Delegate to the external resolver with this (possibly rewritten)
    /// bundle request.
    Resolve(PolyfillRequest),
}

/// The mathematical content of a routing decision.
#[verifier::ext_equal]
pub enum OutcomeData {
    Done(ResponseData),
    Render(AssetData),
    Resolve(RequestData),
}

impl View for RouteOutcome {
    type V = OutcomeData;

    open spec fn view(&self) -> OutcomeData {
        match self {
            RouteOutcome::Done(resp) => OutcomeData::Done(resp@),
            RouteOutcome::Render(asset) => OutcomeData::Render(asset@),
            RouteOutcome::Resolve(req) => OutcomeData::Resolve(req@),
        }
    }
}

/// The response that serves an embedded document: status 200 under the
/// asset's header policy, the body as rendered.
pub open spec fn spec_rendered_response(asset: AssetData, body: Seq<char>) -> ResponseData {
    match asset {
        AssetData::Home => ResponseData { status: 200, headers: home_policy(), body },
        AssetData::Logo => ResponseData { status: 200, headers: logo_policy(), body },
        AssetData::Manifest(_) => ResponseData { status: 200, headers: manifest_policy(), body },
    }
}

/// The complete routing decision, as a function of method, path and
/// decoded query parameters.
pub open spec fn spec_route(m: Method, path: Seq<char>, query: Seq<(Seq<char>, Seq<char>)>)
    -> OutcomeData {
    if m is Options {
        OutcomeData::Done(spec_preflight_response())
    } else if is_blocked_method(m) {
        OutcomeData::Done(spec_method_not_allowed_response())
    } else {
        match spec_dispatch(path) {
            ClassData::HomePage => OutcomeData::Render(AssetData::Home),
            ClassData::StaticAsset(AssetKind::Logo) => OutcomeData::Render(AssetData::Logo),
            ClassData::StaticAsset(AssetKind::Robots) => OutcomeData::Done(spec_robots_response()),
            ClassData::JsonManifest(v) => OutcomeData::Render(AssetData::Manifest(v)),
            ClassData::PolyfillBundle => OutcomeData::Resolve(RequestData { path, query }),
            ClassData::LegacyBundle => OutcomeData::Resolve(
                RequestData { path: rewritten_path(path), query: rewritten_query(query) },
            ),
            ClassData::NotFound => OutcomeData::Done(spec_not_found_response(path)),
        }
    }
}

/// Attaches status and header policy to a rendered embedded document.
pub fn rendered_response(asset: &EmbeddedAsset, body: String) -> (r: HttpResponse)
    ensures
        r@ == spec_rendered_response(asset@, body@),
{
    match asset {
        EmbeddedAsset::Home => {
            let r = HttpResponse { status: 200, headers: home_headers(), body };
            proof {
                assert(r@ =~= spec_rendered_response(asset@, r.body@));
            }
            r
        },
        EmbeddedAsset::Logo => {
            let r = HttpResponse { status: 200, headers: logo_headers(), body };
            proof {
                assert(r@ =~= spec_rendered_response(asset@, r.body@));
            }
            r
        },
        EmbeddedAsset::Manifest(_) => {
            let r = HttpResponse { status: 200, headers: manifest_headers(), body };
            proof {
                assert(r@ =~= spec_rendered_response(asset@, r.body@));
            }
            r
        },
    }
}

/// Routes one request: the method gate first, then the path table, with
/// the legacy shim applied before a legacy bundle is delegated.
pub fn route_request(method: Method, path: String, query: Vec<(String, String)>) -> (r:
    RouteOutcome)
    ensures
        r@ == spec_route(method, path@, query_view(query@)),
{
    match method_gate(method) {
        GateOutcome::Preflight => {
            return RouteOutcome::Done(preflight_response());
        },
        GateOutcome::Disallowed => {
            return RouteOutcome::Done(method_not_allowed_response());
        },
        GateOutcome::Pass => {},
    }
    match dispatch(path.as_str()) {
        ResourceClass::HomePage => RouteOutcome::Render(EmbeddedAsset::Home),
        ResourceClass::StaticAsset(AssetKind::Logo) => RouteOutcome::Render(EmbeddedAsset::Logo),
        ResourceClass::StaticAsset(AssetKind::Robots) => RouteOutcome::Done(robots_response()),
        ResourceClass::JsonManifest(v) => RouteOutcome::Render(EmbeddedAsset::Manifest(v)),
        ResourceClass::PolyfillBundle => RouteOutcome::Resolve(PolyfillRequest { path, query }),
        ResourceClass::LegacyBundle => {
            let native = PolyfillRequest { path, query };
            let rewritten = rewrite_legacy(&native);
            RouteOutcome::Resolve(rewritten)
        },
        ResourceClass::NotFound => RouteOutcome::Done(not_found_response(path.as_str())),
    }
}

} // verus!
