//! The path dispatcher: exact-match routing from the request path to a
//! resource class. The manifest routes are generated from the supported
//! version set, which is the single source of truth for both dispatch and
//! manifest serving.

use vstd::prelude::*;
use vstd::string::StringExecFns;
use crate::text::str_eq;
use crate::versions::{is_supported_version, supported_versions, supported_version_list};

verus! {

/// The two embedded static assets.
#[derive(Clone, Copy, PartialEq, Eq, Structural, Debug)]
pub enum AssetKind {
    Logo,
    Robots,
}

/// What a request path resolves to. Created per request; never persisted.
#[derive(PartialEq, Eq, Debug)]
pub enum ResourceClass {
    /// The informational landing page.
    HomePage,
    /// One of the embedded static assets.
    StaticAsset(AssetKind),
    /// The embedded manifest of the named supported version.
    JsonManifest(String),
    /// A current-generation polyfill bundle request.
    PolyfillBundle,
    /// A legacy-generation polyfill bundle request, owed to the
    /// compatibility shim before it can be served.
    LegacyBundle,
    /// No table entry matches the path.
    NotFound,
}

/// The mathematical content of a resource class.
#[verifier::ext_equal]
pub enum ClassData {
    HomePage,
    StaticAsset(AssetKind),
    JsonManifest(Seq<char>),
    PolyfillBundle,
    LegacyBundle,
    NotFound,
}

impl View for ResourceClass {
    type V = ClassData;

    open spec fn view(&self) -> ClassData {
        match self {
            ResourceClass::HomePage => ClassData::HomePage,
            ResourceClass::StaticAsset(k) => ClassData::StaticAsset(*k),
            ResourceClass::JsonManifest(v) => ClassData::JsonManifest(v@),
            ResourceClass::PolyfillBundle => ClassData::PolyfillBundle,
            ResourceClass::LegacyBundle => ClassData::LegacyBundle,
            ResourceClass::NotFound => ClassData::NotFound,
        }
    }
}

/// Every manifest route starts with this prefix.
pub open spec fn manifest_prefix() -> Seq<char> {
    "/v3/json/library-"@
}

/// Every manifest route ends with this suffix.
pub open spec fn manifest_suffix() -> Seq<char> {
    ".json"@
}

/// The manifest route of a version.
pub open spec fn manifest_path_of(v: Seq<char>) -> Seq<char> {
    manifest_prefix() + v + manifest_suffix()
}

/// The version a manifest-shaped path names: what stands between the
/// prefix and the suffix.
pub open spec fn manifest_version_of(p: Seq<char>) -> Seq<char> {
    p.subrange(manifest_prefix().len() as int, p.len() - manifest_suffix().len())
}

/// A path is a manifest route exactly when it carries the prefix and the
/// suffix around a supported version.
pub open spec fn is_manifest_path(p: Seq<char>) -> bool {
    &&& p.len() >= manifest_prefix().len() + manifest_suffix().len()
    &&& p.subrange(0, manifest_prefix().len() as int) == manifest_prefix()
    &&& p.subrange(p.len() - manifest_suffix().len(), p.len() as int) == manifest_suffix()
    &&& is_supported_version(manifest_version_of(p))
}

/// The two recognized legacy-generation bundle paths.
pub open spec fn is_legacy_bundle_path(p: Seq<char>) -> bool {
    p == "/v2/polyfill.js"@ || p == "/v2/polyfill.min.js"@
}

/// The two current-generation bundle paths.
pub open spec fn is_current_bundle_path(p: Seq<char>) -> bool {
    p == "/v3/polyfill.js"@ || p == "/v3/polyfill.min.js"@
}

/// The routing table: exact match on the path, query string excluded,
/// case-sensitive, no normalization of trailing slashes.
pub open spec fn spec_dispatch(p: Seq<char>) -> ClassData {
    if p == "/"@ {
        ClassData::HomePage
    } else if p == "/img/logo.svg"@ {
        ClassData::StaticAsset(AssetKind::Logo)
    } else if p == "/robots.txt"@ {
        ClassData::StaticAsset(AssetKind::Robots)
    } else if is_manifest_path(p) {
        ClassData::JsonManifest(manifest_version_of(p))
    } else if is_legacy_bundle_path(p) {
        ClassData::LegacyBundle
    } else if is_current_bundle_path(p) {
        ClassData::PolyfillBundle
    } else {
        ClassData::NotFound
    }
}

/// The manifest route of a supported version decomposes back into its
/// three parts.
pub proof fn lemma_manifest_path_parts(v: Seq<char>)
    requires
        is_supported_version(v),
    ensures
        manifest_path_of(v).len() == manifest_prefix().len() + v.len() + manifest_suffix().len(),
        is_manifest_path(manifest_path_of(v)),
        manifest_version_of(manifest_path_of(v)) == v,
{
    let p = manifest_path_of(v);
    assert(p.subrange(0, manifest_prefix().len() as int) =~= manifest_prefix());
    assert(p.subrange(p.len() - manifest_suffix().len(), p.len() as int) =~= manifest_suffix());
    assert(manifest_version_of(p) =~= v);
}

/// A manifest-shaped path is exactly the manifest route of the version it
/// names.
pub proof fn lemma_manifest_path_decompose(p: Seq<char>)
    requires
        p.len() >= manifest_prefix().len() + manifest_suffix().len(),
        p.subrange(0, manifest_prefix().len() as int) == manifest_prefix(),
        p.subrange(p.len() - manifest_suffix().len(), p.len() as int) == manifest_suffix(),
    ensures
        p == manifest_path_of(manifest_version_of(p)),
{
    assert(p =~= manifest_prefix() + manifest_version_of(p) + manifest_suffix());
}

/// Matches a path against the manifest routes of the supported version
/// set, returning the version the path names.
fn match_manifest_path(path: &str) -> (r: Option<String>)
    ensures
        r is Some <==> is_manifest_path(path@),
        r matches Some(v) ==> v@ == manifest_version_of(path@) && path@ == manifest_path_of(v@),
{
    let list = supported_version_list();
    let mut i: usize = 0;
    while i < list.len()
        invariant
            i <= list.len(),
            list@.len() == supported_versions().len(),
            forall|k: int| 0 <= k < list@.len() ==> list@[k]@ == supported_versions()[k],
            forall|k: int| 0 <= k < i ==> path@ != manifest_path_of(supported_versions()[k]),
        decreases list.len() - i,
    {
        let mut candidate = String::from_str("/v3/json/library-");
        candidate.append(list[i]);
        candidate.append(".json");
        if str_eq(path, candidate.as_str()) {
            proof {
                assert(supported_versions().contains(supported_versions()[i as int]));
                lemma_manifest_path_parts(list@[i as int]@);
            }
            return Some(list[i].to_owned());
        }
        i += 1;
    }
    proof {
        if is_manifest_path(path@) {
            let mid = manifest_version_of(path@);
            let k = choose|k: int|
                0 <= k < supported_versions().len() && supported_versions()[k] == mid;
            lemma_manifest_path_decompose(path@);
            assert(path@ == manifest_path_of(supported_versions()[k]));
            assert(false);
        }
    }
    None
}

/// Runs the routing table on a path.
pub fn dispatch(path: &str) -> (r: ResourceClass)
    ensures
        r@ == spec_dispatch(path@),
{
    if str_eq(path, "/") {
        return ResourceClass::HomePage;
    }
    if str_eq(path, "/img/logo.svg") {
        return ResourceClass::StaticAsset(AssetKind::Logo);
    }
    if str_eq(path, "/robots.txt") {
        return ResourceClass::StaticAsset(AssetKind::Robots);
    }
    if let Some(v) = match_manifest_path(path) {
        return ResourceClass::JsonManifest(v);
    }
    if str_eq(path, "/v2/polyfill.js") || str_eq(path, "/v2/polyfill.min.js") {
        return ResourceClass::LegacyBundle;
    }
    if str_eq(path, "/v3/polyfill.js") || str_eq(path, "/v3/polyfill.min.js") {
        return ResourceClass::PolyfillBundle;
    }
    ResourceClass::NotFound
}

} // verus!
