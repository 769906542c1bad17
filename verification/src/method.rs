//! The method gate: allow-lists HTTP methods before any path inspection.

use vstd::prelude::*;

verus! {

/// The HTTP methods the edge distinguishes.
#[derive(Clone, Copy, PartialEq, Eq, Structural, Debug)]
pub enum Method {
    Get,
    Head,
    Options,
    Connect,
    Delete,
    Patch,
    Post,
    Put,
    Trace,
}

/// Methods answered with a terminal `405 Method Not Allowed`.
pub open spec fn is_blocked_method(m: Method) -> bool {
    m is Connect || m is Delete || m is Patch || m is Post || m is Put || m is Trace
}

/// Methods that go on to the path dispatcher.
pub open spec fn is_read_method(m: Method) -> bool {
    m is Get || m is Head
}

/// What the method gate decides, before any other logic runs.
#[derive(Clone, Copy, PartialEq, Eq, Structural, Debug)]
pub enum GateOutcome {
    /// `OPTIONS`: terminal preflight response.
    Preflight,
    /// One of the disallowed verbs: terminal `405`.
    Disallowed,
    /// `GET` or `HEAD`: hand the request to the path dispatcher.
    Pass,
}

/// Every method falls in exactly one of the three outcomes.
pub open spec fn spec_method_gate(m: Method) -> GateOutcome {
    if m is Options {
        GateOutcome::Preflight
    } else if is_blocked_method(m) {
        GateOutcome::Disallowed
    } else {
        GateOutcome::Pass
    }
}

/// Runs the method gate.
pub fn method_gate(m: Method) -> (r: GateOutcome)
    ensures
        r == spec_method_gate(m),
        r is Pass <==> is_read_method(m),
{
    match m {
        Method::Options => GateOutcome::Preflight,
        Method::Connect
        | Method::Delete
        | Method::Patch
        | Method::Post
        | Method::Put
        | Method::Trace => GateOutcome::Disallowed,
        Method::Get | Method::Head => GateOutcome::Pass,
    }
}

} // verus!
