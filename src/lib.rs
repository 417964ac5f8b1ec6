//! A store of time-locked, access-controlled capsules.
//!
//! A capsule holds content that may be revealed only once its unlock time has
//! passed, and then only to callers that its access policy admits. The host
//! supplies the caller's identity and the current time as plain values.

pub mod model;
pub mod access;
pub mod store;
pub mod laws;
