//! The header policy table: one immutable header set per resource class.

use vstd::prelude::*;

verus! {

/// An ordered list of header name/value pairs, all drawn from the fixed
/// policy table.
pub type HeaderList = Vec<(&'static str, &'static str)>;

/// The character-level content of a header list.
pub open spec fn header_view(h: Seq<(&'static str, &'static str)>) -> Seq<
    (Seq<char>, Seq<char>),
> {
    h.map_values(|p: (&'static str, &'static str)| (p.0@, p.1@))
}

/// The long-lived immutable cache directive shared by the preflight,
/// not-found and bundle policies: one year shared, one week in the browser,
/// one week of stale tolerance.
pub open spec fn long_lived_cache_directive() -> Seq<char> {
    "public, s-maxage=31536000, max-age=604800, stale-while-revalidate=604800, stale-if-error=604800, immutable"@
}

/// Headers of the terminal `OPTIONS` preflight response.
pub open spec fn preflight_policy() -> Seq<(Seq<char>, Seq<char>)> {
    seq![
        ("allow"@, "OPTIONS, GET, HEAD"@),
        ("Cache-Control"@, long_lived_cache_directive()),
    ]
}

/// Headers of the terminal `405` response.
pub open spec fn method_not_allowed_policy() -> Seq<(Seq<char>, Seq<char>)> {
    seq![("allow"@, "GET, HEAD"@)]
}

/// Headers of the home page: short-TTL cache plus the security set.
pub open spec fn home_policy() -> Seq<(Seq<char>, Seq<char>)> {
    seq![
        ("content-type"@, "text/html; charset=utf-8"@),
        ("x-compress-hint"@, "on"@),
        ("X-XSS-Protection"@, "1; mode=block"@),
        ("X-Content-Type-Options"@, "nosniff"@),
        ("Referrer-Policy"@, "origin-when-cross-origin"@),
        ("Strict-Transport-Security"@, "max-age=31536000; includeSubdomains; preload"@),
        ("Cache-Control"@, "max-age=60, stale-while-revalidate=60, stale-if-error=86400"@),
    ]
}

/// Headers of the embedded logo asset.
pub open spec fn logo_policy() -> Seq<(Seq<char>, Seq<char>)> {
    seq![
        ("content-type"@, "image/svg+xml"@),
        ("x-compress-hint"@, "on"@),
        ("surrogate-key"@, "website"@),
    ]
}

/// Headers of an embedded version manifest: JSON, one day of cache and
/// stale tolerance.
pub open spec fn manifest_policy() -> Seq<(Seq<char>, Seq<char>)> {
    seq![
        ("content-type"@, "application/json"@),
        ("x-compress-hint"@, "on"@),
        ("surrogate-key"@, "website"@),
        ("Cache-Control"@, "max-age=86400, stale-while-revalidate=86400, stale-if-error=86400"@),
    ]
}

/// Headers of a polyfill bundle response. The `Vary` entry is essential:
/// bundle content depends on the requesting user agent.
pub open spec fn bundle_policy() -> Seq<(Seq<char>, Seq<char>)> {
    seq![
        ("Access-Control-Allow-Origin"@, "*"@),
        ("Access-Control-Allow-Methods"@, "GET,HEAD,OPTIONS"@),
        ("X-Compress-Hint"@, "on"@),
        ("Content-Type"@, "text/javascript; charset=UTF-8"@),
        ("Cache-Control"@, long_lived_cache_directive()),
        ("Vary"@, "User-Agent, Accept-Encoding"@),
    ]
}

/// Headers of the aggressively cached `404` (and of the invalid-version
/// `400`, which shares the policy).
pub open spec fn not_found_policy() -> Seq<(Seq<char>, Seq<char>)> {
    seq![("Cache-Control"@, long_lived_cache_directive())]
}

/// The long-lived immutable cache directive, as an executable value.
pub fn long_lived_cache_directive_str() -> (r: &'static str)
    ensures
        r@ == long_lived_cache_directive(),
{
    "public, s-maxage=31536000, max-age=604800, stale-while-revalidate=604800, stale-if-error=604800, immutable"
}

/// Builds the preflight header list.
pub fn preflight_headers() -> (r: HeaderList)
    ensures
        header_view(r@) == preflight_policy(),
{
    let mut h: HeaderList = Vec::new();
    h.push(("allow", "OPTIONS, GET, HEAD"));
    h.push(("Cache-Control", long_lived_cache_directive_str()));
    proof {
        assert(header_view(h@) =~= preflight_policy());
    }
    h
}

/// Builds the `405` header list.
pub fn method_not_allowed_headers() -> (r: HeaderList)
    ensures
        header_view(r@) == method_not_allowed_policy(),
{
    let mut h: HeaderList = Vec::new();
    h.push(("allow", "GET, HEAD"));
    proof {
        assert(header_view(h@) =~= method_not_allowed_policy());
    }
    h
}

/// Builds the home page header list.
pub fn home_headers() -> (r: HeaderList)
    ensures
        header_view(r@) == home_policy(),
{
    let mut h: HeaderList = Vec::new();
    h.push(("content-type", "text/html; charset=utf-8"));
    h.push(("x-compress-hint", "on"));
    h.push(("X-XSS-Protection", "1; mode=block"));
    h.push(("X-Content-Type-Options", "nosniff"));
    h.push(("Referrer-Policy", "origin-when-cross-origin"));
    h.push(("Strict-Transport-Security", "max-age=31536000; includeSubdomains; preload"));
    h.push(("Cache-Control", "max-age=60, stale-while-revalidate=60, stale-if-error=86400"));
    proof {
        assert(header_view(h@) =~= home_policy());
    }
    h
}

/// Builds the logo header list.
pub fn logo_headers() -> (r: HeaderList)
    ensures
        header_view(r@) == logo_policy(),
{
    let mut h: HeaderList = Vec::new();
    h.push(("content-type", "image/svg+xml"));
    h.push(("x-compress-hint", "on"));
    h.push(("surrogate-key", "website"));
    proof {
        assert(header_view(h@) =~= logo_policy());
    }
    h
}

/// Builds the manifest header list.
pub fn manifest_headers() -> (r: HeaderList)
    ensures
        header_view(r@) == manifest_policy(),
{
    let mut h: HeaderList = Vec::new();
    h.push(("content-type", "application/json"));
    h.push(("x-compress-hint", "on"));
    h.push(("surrogate-key", "website"));
    h.push(("Cache-Control", "max-age=86400, stale-while-revalidate=86400, stale-if-error=86400"));
    proof {
        assert(header_view(h@) =~= manifest_policy());
    }
    h
}

/// Builds the bundle header list.
pub fn bundle_headers() -> (r: HeaderList)
    ensures
        header_view(r@) == bundle_policy(),
{
    let mut h: HeaderList = Vec::new();
    h.push(("Access-Control-Allow-Origin", "*"));
    h.push(("Access-Control-Allow-Methods", "GET,HEAD,OPTIONS"));
    h.push(("X-Compress-Hint", "on"));
    h.push(("Content-Type", "text/javascript; charset=UTF-8"));
    h.push(("Cache-Control", long_lived_cache_directive_str()));
    h.push(("Vary", "User-Agent, Accept-Encoding"));
    proof {
        assert(header_view(h@) =~= bundle_policy());
    }
    h
}

/// Builds the not-found header list.
pub fn not_found_headers() -> (r: HeaderList)
    ensures
        header_view(r@) == not_found_policy(),
{
    let mut h: HeaderList = Vec::new();
    h.push(("Cache-Control", long_lived_cache_directive_str()));
    proof {
        assert(header_view(h@) =~= not_found_policy());
    }
    h
}

/// The bundle policy always carries `Vary: User-Agent, Accept-Encoding`,
/// so a browser cache keyed on the user agent never serves one agent's
/// bundle to another.
pub proof fn lemma_bundle_policy_varies_on_user_agent()
    ensures
        bundle_policy().contains(("Vary"@, "User-Agent, Accept-Encoding"@)),
{
    assert(bundle_policy()[5] == ("Vary"@, "User-Agent, Accept-Encoding"@));
}

} // verus!
