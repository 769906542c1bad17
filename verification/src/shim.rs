//! The legacy compatibility shim: rewrites an old-generation polyfill
//! request into the current generation's shape before re-dispatch.

use vstd::prelude::*;
use vstd::string::StringExecFns;
use crate::dispatch::{is_current_bundle_path, is_legacy_bundle_path};
use crate::text::str_eq;

verus! {

/// A polyfill bundle request as the resolver-facing side sees it: the
/// path and the decoded query parameters, in order.
#[derive(PartialEq, Eq, Debug)]
pub struct PolyfillRequest {
    pub path: String,
    pub query: Vec<(String, String)>,
}

/// The character-level content of a query parameter list.
pub open spec fn query_view(q: Seq<(String, String)>) -> Seq<(Seq<char>, Seq<char>)> {
    q.map_values(|p: (String, String)| (p.0@, p.1@))
}

/// The mathematical content of a bundle request.
#[verifier::ext_equal]
pub struct RequestData {
    pub path: Seq<char>,
    pub query: Seq<(Seq<char>, Seq<char>)>,
}

impl View for PolyfillRequest {
    type V = RequestData;

    open spec fn view(&self) -> RequestData {
        RequestData { path: self.path@, query: query_view(self.query@) }
    }
}

/// Whether some parameter of the list carries the name.
pub open spec fn has_param(q: Seq<(Seq<char>, Seq<char>)>, name: Seq<char>) -> bool {
    exists|i: int| 0 <= i < q.len() && q[i].0 == name
}

/// The value of the last parameter carrying the name: the one a last-wins
/// reading of the query string settles on.
pub open spec fn last_param_value(q: Seq<(Seq<char>, Seq<char>)>, name: Seq<char>) -> Option<
    Seq<char>,
>
    decreases q.len(),
{
    if q.len() == 0 {
        None
    } else if q.last().0 == name {
        Some(q.last().1)
    } else {
        last_param_value(q.drop_last(), name)
    }
}

/// The fixed compatibility version every legacy request is pinned to.
pub open spec fn legacy_compat_version() -> Seq<char> {
    "3.25.1"@
}

/// The current-generation path a legacy path is rewritten to: the legacy
/// prefix is replaced, the remainder of the path stays.
pub open spec fn rewritten_path(p: Seq<char>) -> Seq<char> {
    if p == "/v2/polyfill.js"@ {
        "/v3/polyfill.js"@
    } else {
        "/v3/polyfill.min.js"@
    }
}

/// The rewritten parameter list: every caller-supplied parameter kept in
/// order, `version` forced to the compatibility version, and
/// `unknown=ignore` injected exactly when the caller supplied no
/// `unknown` parameter.
pub open spec fn rewritten_query(q: Seq<(Seq<char>, Seq<char>)>) -> Seq<(Seq<char>, Seq<char>)> {
    let forced = q.push(("version"@, legacy_compat_version()));
    if has_param(q, "unknown"@) {
        forced
    } else {
        forced.push(("unknown"@, "ignore"@))
    }
}

/// Whether the list has a parameter of the name.
fn query_has_param(q: &Vec<(String, String)>, name: &str) -> (r: bool)
    ensures
        r == has_param(query_view(q@), name@),
{
    let mut i: usize = 0;
    while i < q.len()
        invariant
            i <= q@.len(),
            forall|j: int| 0 <= j < i ==> query_view(q@)[j].0 != name@,
        decreases q@.len() - i,
    {
        let pair = &q[i];
        if str_eq(pair.0.as_str(), name) {
            proof {
                assert(query_view(q@)[i as int].0 == q@[i as int].0@);
            }
            return true;
        }
        i += 1;
    }
    false
}

/// Copies a parameter list.
fn clone_query(q: &Vec<(String, String)>) -> (r: Vec<(String, String)>)
    ensures
        r@ == q@,
{
    let mut r: Vec<(String, String)> = Vec::new();
    let mut i: usize = 0;
    while i < q.len()
        invariant
            i <= q@.len(),
            r@.len() == i,
            forall|j: int| 0 <= j < i ==> r@[j] == q@[j],
        decreases q@.len() - i,
    {
        let pair = &q[i];
        r.push((pair.0.clone(), pair.1.clone()));
        i += 1;
    }
    proof {
        assert(r@ =~= q@);
    }
    r
}

/// Rewrites a legacy bundle request into the current generation's shape.
/// Method and headers travel with the platform request unchanged; this
/// shim owns the path and the parameter list.
pub fn rewrite_legacy(req: &PolyfillRequest) -> (r: PolyfillRequest)
    requires
        is_legacy_bundle_path(req@.path),
    ensures
        r@.path == rewritten_path(req@.path),
        r@.query == rewritten_query(req@.query),
        is_current_bundle_path(r@.path),
{
    let path = if str_eq(req.path.as_str(), "/v2/polyfill.js") {
        String::from_str("/v3/polyfill.js")
    } else {
        String::from_str("/v3/polyfill.min.js")
    };
    let had_unknown = query_has_param(&req.query, "unknown");
    let mut query = clone_query(&req.query);
    query.push((String::from_str("version"), String::from_str("3.25.1")));
    if !had_unknown {
        query.push((String::from_str("unknown"), String::from_str("ignore")));
    }
    proof {
        assert(query_view(query@) =~= rewritten_query(query_view(req.query@)));
    }
    PolyfillRequest { path, query }
}

/// The compatibility rewrite drops no caller-supplied parameter, forces
/// the effective `version` to the compatibility version, and injects
/// `unknown=ignore` exactly when the caller supplied no `unknown`
/// parameter — the one it did supply, it keeps untouched.
pub proof fn lemma_rewrite_preserves_query(q: Seq<(Seq<char>, Seq<char>)>)
    ensures
        q.is_prefix_of(rewritten_query(q)),
        last_param_value(rewritten_query(q), "version"@) == Some(legacy_compat_version()),
        !has_param(q, "unknown"@) ==> last_param_value(rewritten_query(q), "unknown"@) == Some(
            "ignore"@,
        ),
        has_param(q, "unknown"@) ==> rewritten_query(q) == q.push(
            ("version"@, legacy_compat_version()),
        ),
{
    let forced = q.push(("version"@, legacy_compat_version()));
    assert(q =~= rewritten_query(q).subrange(0, q.len() as int));
    if has_param(q, "unknown"@) {
        assert(rewritten_query(q).last().0 == "version"@);
    } else {
        reveal_strlit("version");
        reveal_strlit("unknown");
        assert("version"@ != "unknown"@) by {
            assert("version"@[0] == 'v');
            assert("unknown"@[0] == 'u');
        }
        assert(rewritten_query(q).last() == ("unknown"@, "ignore"@));
        assert(rewritten_query(q).drop_last() =~= forced);
        assert(last_param_value(forced, "version"@) == Some(legacy_compat_version()));
    }
}

} // verus!
