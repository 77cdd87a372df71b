//! Verified client-side core of an administrative REST client for a
//! message broker.
//!
//! The library covers everything about the administrative exchange that can
//! be decided without touching the network: composing the base origin and the
//! resource paths, describing each operation as an HTTP request, classifying
//! response statuses, and decoding the JSON payloads into typed records.
//! A thin unverified shell performs the actual HTTP calls and feeds the
//! results back into these functions.

pub mod decode;
pub mod error;
pub mod jsonio;
pub mod jsonmodel;
pub mod laws;
pub mod lookup;
pub mod numfmt;
pub mod ops;
pub mod paths;
pub mod stats;
pub mod transport;
pub mod util;
