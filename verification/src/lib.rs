//! Verified core of a small air-quality statistics service.
//!
//! The service proxies one upstream open-data endpoint and derives three
//! statistics (average, maximum, minimum) from pollutant readings that the
//! upstream transmits as text. This crate holds the part worth proving:
//! decimal parsing of the text fields, the aggregation arithmetic with its
//! empty-input and parse-failure handling, and the per-route error mapping.
//! The HTTP server, the outbound request and the JSON (de)serialisation live
//! outside the library and hand it plain values.

pub mod model;
pub mod numtext;
pub mod service;
pub mod stats;
