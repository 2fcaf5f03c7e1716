//! A small verified video-search client library.
//!
//! The library covers the logic of a minimal search application: building an
//! authenticated request to a remote video-search endpoint (with the query
//! percent-encoded), selecting the first item of a decoded response (or an
//! all-empty placeholder when the response holds no items), and the view
//! controller that owns the displayed result. Network transport, JSON
//! decoding and UI wiring live outside the library and hand it plain values.

pub mod controller;
pub mod encoding;
pub mod search;
pub mod video;
