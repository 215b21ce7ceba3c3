//! Domain model and query-building logic for a location-intelligence CLI.
//!
//! The library covers the pure part of the tool: the data model for
//! geocoding and nearby-amenity results, the mapping from free-text
//! amenity-type lists to the closed `ServiceType` enumeration, the
//! resolution of address/coordinate input into a `SearchQuery`, and a
//! JSON encoder for the JSON-RPC response envelope.  Transport,
//! argument parsing and rendering live outside the library.
//!
//! Angles and distances are held as fixed-point integers (millionths of
//! a unit), so that the model stays in exact arithmetic; the boundary
//! converts to and from floating point.

pub mod jsonrpc;
pub mod models;
pub mod query;
