use polyfill_edge::delegate::{check_version, VersionCheck};
use polyfill_edge::dispatch::{dispatch, AssetKind, ResourceClass};
use polyfill_edge::method::Method;
use polyfill_edge::response::{bundle_response, resolver_failure_message};
use polyfill_edge::router::{rendered_response, route_request, EmbeddedAsset, RouteOutcome};
use polyfill_edge::versions::{parse_library_version, supported_version_list};

const LONG_CACHE: &str = "public, s-maxage=31536000, max-age=604800, stale-while-revalidate=604800, stale-if-error=604800, immutable";

fn query(pairs: &[(&str, &str)]) -> Vec<(String, String)> {
    pairs.iter().map(|p| (p.0.to_string(), p.1.to_string())).collect()
}

fn route(method: Method, path: &str, pairs: &[(&str, &str)]) -> RouteOutcome {
    route_request(method, path.to_string(), query(pairs))
}

#[test]
fn blocked_methods_get_405_on_every_path() {
    let methods = [
        Method::Connect,
        Method::Delete,
        Method::Patch,
        Method::Post,
        Method::Put,
        Method::Trace,
    ];
    let paths = ["/", "/img/logo.svg", "/v3/polyfill.js", "/anything/else"];
    for m in methods {
        for p in paths {
            match route(m, p, &[]) {
                RouteOutcome::Done(resp) => {
                    assert_eq!(resp.status, 405);
                    assert_eq!(resp.headers, vec![("allow", "GET, HEAD")]);
                    assert_eq!(resp.body, "This method is not allowed\n");
                }
                other => panic!("expected a terminal response, got {other:?}"),
            }
        }
    }
}

#[test]
fn options_gets_preflight_on_every_path() {
    let paths = ["/", "/robots.txt", "/v2/polyfill.js", "/nowhere"];
    for p in paths {
        match route(Method::Options, p, &[]) {
            RouteOutcome::Done(resp) => {
                assert_eq!(resp.status, 200);
                assert_eq!(resp.body, "");
                assert_eq!(
                    resp.headers,
                    vec![("allow", "OPTIONS, GET, HEAD"), ("Cache-Control", LONG_CACHE)]
                );
            }
            other => panic!("expected a terminal response, got {other:?}"),
        }
    }
}

#[test]
fn every_supported_version_has_a_manifest_route() {
    for v in supported_version_list() {
        let path = format!("/v3/json/library-{v}.json");
        match route(Method::Get, &path, &[]) {
            RouteOutcome::Render(EmbeddedAsset::Manifest(got)) => assert_eq!(got, v),
            other => panic!("expected a manifest render for {v}, got {other:?}"),
        }
        let resp = rendered_response(
            &EmbeddedAsset::Manifest(v.to_string()),
            "{\"polyfills\":[]}".to_string(),
        );
        assert_eq!(resp.status, 200);
        assert_eq!(resp.headers[0], ("content-type", "application/json"));
        let cache = resp
            .headers
            .iter()
            .find(|h| h.0 == "Cache-Control")
            .expect("manifest policy has a cache directive");
        assert!(cache.1.contains("max-age=86400"));
    }
}

#[test]
fn manifest_route_of_unknown_version_misses() {
    match route(Method::Get, "/v3/json/library-9.9.9.json", &[]) {
        RouteOutcome::Done(resp) => {
            assert_eq!(resp.status, 404);
            assert_eq!(resp.body, "/v3/json/library-9.9.9.json: Not Found");
        }
        other => panic!("expected a terminal response, got {other:?}"),
    }
}

#[test]
fn unsupported_version_gets_400_naming_it() {
    match check_version("9.9.9") {
        VersionCheck::Unsupported(resp) => {
            assert_eq!(resp.status, 400);
            assert!(resp.body.contains("9.9.9"));
            assert_eq!(resp.body, "requested version 9.9.9 does not exist");
            assert_eq!(resp.headers, vec![("Cache-Control", LONG_CACHE)]);
        }
        other => panic!("expected the version to be rejected, got {other:?}"),
    }
}

#[test]
fn supported_version_passes_validation() {
    assert_eq!(check_version("4.8.0"), VersionCheck::Supported("4.8.0".to_string()));
    assert_eq!(parse_library_version("3.27.4"), Some("3.27.4".to_string()));
    assert_eq!(parse_library_version("4.9.0"), None);
    assert_eq!(parse_library_version(""), None);
}

#[test]
fn every_supported_version_passes_validation() {
    for v in supported_version_list() {
        assert_eq!(parse_library_version(v), Some(v.to_string()));
    }
}

#[test]
fn legacy_request_gets_version_forced_last() {
    match route(Method::Get, "/v2/polyfill.js", &[("version", "1.0.0")]) {
        RouteOutcome::Resolve(req) => {
            assert_eq!(
                req.query,
                query(&[("version", "1.0.0"), ("version", "3.25.1"), ("unknown", "ignore")])
            );
            let last_version = req.query.iter().rev().find(|p| p.0 == "version").unwrap();
            assert_eq!(last_version.1, "3.25.1");
        }
        other => panic!("expected a resolver delegation, got {other:?}"),
    }
}

#[test]
fn legacy_request_is_rewritten_with_defaults_injected() {
    match route(Method::Get, "/v2/polyfill.js", &[("foo", "bar")]) {
        RouteOutcome::Resolve(req) => {
            assert_eq!(req.path, "/v3/polyfill.js");
            assert_eq!(
                req.query,
                query(&[("foo", "bar"), ("version", "3.25.1"), ("unknown", "ignore")])
            );
        }
        other => panic!("expected a resolver delegation, got {other:?}"),
    }
}

#[test]
fn legacy_request_keeps_a_caller_supplied_unknown() {
    match route(Method::Get, "/v2/polyfill.js", &[("unknown", "fail")]) {
        RouteOutcome::Resolve(req) => {
            assert_eq!(req.path, "/v3/polyfill.js");
            assert_eq!(req.query, query(&[("unknown", "fail"), ("version", "3.25.1")]));
        }
        other => panic!("expected a resolver delegation, got {other:?}"),
    }
}

#[test]
fn legacy_min_path_is_rewritten_to_current_min_path() {
    match route(Method::Head, "/v2/polyfill.min.js", &[]) {
        RouteOutcome::Resolve(req) => {
            assert_eq!(req.path, "/v3/polyfill.min.js");
            assert_eq!(req.query, query(&[("version", "3.25.1"), ("unknown", "ignore")]));
        }
        other => panic!("expected a resolver delegation, got {other:?}"),
    }
}

#[test]
fn current_generation_request_is_delegated_unchanged() {
    match route(Method::Get, "/v3/polyfill.min.js", &[("version", "4.8.0"), ("features", "fetch")])
    {
        RouteOutcome::Resolve(req) => {
            assert_eq!(req.path, "/v3/polyfill.min.js");
            assert_eq!(req.query, query(&[("version", "4.8.0"), ("features", "fetch")]));
        }
        other => panic!("expected a resolver delegation, got {other:?}"),
    }
}

#[test]
fn unknown_path_gets_404_naming_it() {
    match route(Method::Get, "/unknown/path", &[]) {
        RouteOutcome::Done(resp) => {
            assert_eq!(resp.status, 404);
            assert_eq!(resp.body, "/unknown/path: Not Found");
            assert_eq!(resp.headers, vec![("Cache-Control", LONG_CACHE)]);
        }
        other => panic!("expected a terminal response, got {other:?}"),
    }
}

#[test]
fn identical_static_requests_get_identical_responses() {
    let first = route(Method::Get, "/img/logo.svg", &[]);
    let second = route(Method::Get, "/img/logo.svg", &[]);
    assert_eq!(first, second);
    let svg = "<svg xmlns=\"http://www.w3.org/2000/svg\"></svg>";
    let a = rendered_response(&EmbeddedAsset::Logo, svg.to_string());
    let b = rendered_response(&EmbeddedAsset::Logo, svg.to_string());
    assert_eq!(a.body, b.body);
    assert_eq!(a.headers, b.headers);
    assert_eq!(a.headers[0], ("content-type", "image/svg+xml"));
}

#[test]
fn bundle_responses_vary_on_user_agent() {
    let resp = bundle_response("polyfills".to_string());
    assert_eq!(resp.status, 200);
    assert_eq!(resp.body, "polyfills");
    assert!(resp.headers.contains(&("Vary", "User-Agent, Accept-Encoding")));
    assert_eq!(resp.headers[3], ("Content-Type", "text/javascript; charset=UTF-8"));
    assert_eq!(resp.headers[0], ("Access-Control-Allow-Origin", "*"));
}

#[test]
fn robots_is_served_fresh_with_fixed_body() {
    match route(Method::Get, "/robots.txt", &[]) {
        RouteOutcome::Done(resp) => {
            assert_eq!(resp.status, 200);
            assert_eq!(resp.body, "User-agent: *\nDisallow:");
            assert!(resp.headers.is_empty());
        }
        other => panic!("expected a terminal response, got {other:?}"),
    }
}

#[test]
fn home_page_gets_security_and_short_cache_headers() {
    match route(Method::Get, "/", &[]) {
        RouteOutcome::Render(EmbeddedAsset::Home) => {}
        other => panic!("expected the home render, got {other:?}"),
    }
    let resp = rendered_response(&EmbeddedAsset::Home, "<html></html>".to_string());
    assert_eq!(resp.status, 200);
    assert_eq!(
        resp.headers,
        vec![
            ("content-type", "text/html; charset=utf-8"),
            ("x-compress-hint", "on"),
            ("X-XSS-Protection", "1; mode=block"),
            ("X-Content-Type-Options", "nosniff"),
            ("Referrer-Policy", "origin-when-cross-origin"),
            ("Strict-Transport-Security", "max-age=31536000; includeSubdomains; preload"),
            ("Cache-Control", "max-age=60, stale-while-revalidate=60, stale-if-error=86400"),
        ]
    );
}

#[test]
fn matching_is_exact_and_case_sensitive() {
    assert_eq!(dispatch("/robots.txt/"), ResourceClass::NotFound);
    assert_eq!(dispatch("/V3/polyfill.js"), ResourceClass::NotFound);
    assert_eq!(dispatch("/v3/polyfill.js?x=1"), ResourceClass::NotFound);
    assert_eq!(dispatch("/v2/polyfill.js"), ResourceClass::LegacyBundle);
    assert_eq!(dispatch("/img/logo.svg"), ResourceClass::StaticAsset(AssetKind::Logo));
    assert_eq!(dispatch(""), ResourceClass::NotFound);
}

#[test]
fn resolver_failures_are_wrapped_with_context() {
    assert_eq!(
        resolver_failure_message("stream closed"),
        "failed to get_polyfill_string_stream: stream closed"
    );
}
