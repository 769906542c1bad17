//! The supported version set: the fixed collection of library-version
//! identifiers the resolver can serve. Used only for membership tests.

use vstd::prelude::*;
use crate::text::str_eq;

verus! {

/// The version identifiers recognized by the current resolver, in the
/// order the routing table enumerates them.
pub open spec fn supported_versions() -> Seq<Seq<char>> {
    seq![
        "3.101.0"@,
        "3.103.0"@,
        "3.104.0"@,
        "3.108.0"@,
        "3.109.0"@,
        "3.110.1"@,
        "3.111.0"@,
        "3.27.4"@,
        "3.34.0"@,
        "3.39.0"@,
        "3.40.0"@,
        "3.41.0"@,
        "3.42.0"@,
        "3.46.0"@,
        "3.48.0"@,
        "3.50.2"@,
        "3.51.0"@,
        "3.52.0"@,
        "3.52.1"@,
        "3.52.2"@,
        "3.52.3"@,
        "3.53.1"@,
        "3.89.4"@,
        "3.96.0"@,
        "3.98.0"@,
        "4.8.0"@,
    ]
}

/// Membership in the supported version set.
pub open spec fn is_supported_version(v: Seq<char>) -> bool {
    supported_versions().contains(v)
}

/// The supported version set as an executable list, aligned entry by entry
/// with `supported_versions`.
pub fn supported_version_list() -> (r: Vec<&'static str>)
    ensures
        r@.len() == supported_versions().len(),
        forall|i: int| 0 <= i < r@.len() ==> r@[i]@ == supported_versions()[i],
{
    let mut v: Vec<&'static str> = Vec::new();
    v.push("3.101.0");
    v.push("3.103.0");
    v.push("3.104.0");
    v.push("3.108.0");
    v.push("3.109.0");
    v.push("3.110.1");
    v.push("3.111.0");
    v.push("3.27.4");
    v.push("3.34.0");
    v.push("3.39.0");
    v.push("3.40.0");
    v.push("3.41.0");
    v.push("3.42.0");
    v.push("3.46.0");
    v.push("3.48.0");
    v.push("3.50.2");
    v.push("3.51.0");
    v.push("3.52.0");
    v.push("3.52.1");
    v.push("3.52.2");
    v.push("3.52.3");
    v.push("3.53.1");
    v.push("3.89.4");
    v.push("3.96.0");
    v.push("3.98.0");
    v.push("4.8.0");
    v
}

/// Validates a requested version against the supported version set:
/// returns the version itself exactly when it is a member.
pub fn parse_library_version(version: &str) -> (r: Option<String>)
    ensures
        r is Some <==> is_supported_version(version@),
        r matches Some(s) ==> s@ == version@,
{
    let list = supported_version_list();
    let mut i: usize = 0;
    while i < list.len()
        invariant
            i <= list.len(),
            list@.len() == supported_versions().len(),
            forall|k: int| 0 <= k < list@.len() ==> list@[k]@ == supported_versions()[k],
            forall|k: int| 0 <= k < i ==> supported_versions()[k] != version@,
        decreases list.len() - i,
    {
        if str_eq(version, list[i]) {
            return Some(version.to_owned());
        }
        i += 1;
    }
    None
}

} // verus!
