//! Aggregation of syndicated news feeds from a fixed set of sources.
//!
//! The library holds the decisions of the aggregator: the source registry,
//! the shape of each outbound request, the header-stripping transform, the
//! per-source pipeline (transport outcome, UTF-8 decoding, feed truncation and
//! error reporting) and the assembly of the combined response in registry
//! order. The network calls and the XML deserialisation are performed by the
//! caller, which hands their outcomes back as plain values.
pub mod aggregate;
pub mod fetch;
pub mod laws;
pub mod model;
pub mod parse;
pub mod registry;
