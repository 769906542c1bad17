//! The resolver delegate adapter's decision side: validate the requested
//! version before any resolver call, and classify the outcome. The
//! platform invokes the external resolver only on `Supported`, and wraps
//! its output with `bundle_response`; a resolver failure is wrapped with
//! `resolver_failure_message` and surfaced as a fatal internal error.

use vstd::prelude::*;
use crate::response::{spec_unsupported_version_response, unsupported_version_response,
    HttpResponse, ResponseData};
use crate::versions::{is_supported_version, parse_library_version};

verus! {

/// What version validation decides.
#[derive(PartialEq, Eq, Debug)]
pub enum VersionCheck {
    /// The version is outside the supported set: a terminal `400`, built
    /// before any resolver work is spent.
    Unsupported(HttpResponse),
    /// The validated version the resolver is to be called with.
    Supported(String),
}

/// The mathematical content of a version-validation outcome.
#[verifier::ext_equal]
pub enum VersionCheckData {
    Unsupported(ResponseData),
    Supported(Seq<char>),
}

impl View for VersionCheck {
    type V = VersionCheckData;

    open spec fn view(&self) -> VersionCheckData {
        match self {
            VersionCheck::Unsupported(resp) => VersionCheckData::Unsupported(resp@),
            VersionCheck::Supported(v) => VersionCheckData::Supported(v@),
        }
    }
}

/// Version validation: the version itself when it is supported, the
/// terminal `400` naming it when it is not.
pub open spec fn spec_check_version(version: Seq<char>) -> VersionCheckData {
    if is_supported_version(version) {
        VersionCheckData::Supported(version)
    } else {
        VersionCheckData::Unsupported(spec_unsupported_version_response(version))
    }
}

/// Validates the requested version against the supported set.
pub fn check_version(version: &str) -> (r: VersionCheck)
    ensures
        r@ == spec_check_version(version@),
{
    match parse_library_version(version) {
        Some(v) => VersionCheck::Supported(v),
        None => VersionCheck::Unsupported(unsupported_version_response(version)),
    }
}

} // verus!
