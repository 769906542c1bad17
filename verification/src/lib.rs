//! Edge router for a polyfill content-delivery service.
//!
//! The library classifies an inbound HTTP request (method, path, query) into
//! a resource class, rewrites legacy-generation polyfill requests into the
//! current generation's shape, validates requested library versions against
//! the supported set, and assigns the header policy of each response class.
//! The hosting platform performs the actual I/O and invokes the external
//! resolver; this crate holds every routing decision and proves its contracts.

pub mod delegate;
pub mod dispatch;
pub mod laws;
pub mod method;
pub mod policy;
pub mod response;
pub mod router;
pub mod shim;
pub mod text;
pub mod versions;
