//! Typed accessor and validation layer for smart-contract entry points.
//!
//! A contract invocation reads typed values out of two byte-oriented key/value
//! sources (the persisted state and the incoming call parameters), computes
//! with overflow-checked arithmetic, gates privileged paths on caller
//! identity, and writes typed values into an outgoing result map. Every
//! failure of those steps is fatal to the invocation: it is surfaced here as
//! an [`error::ScError`] value which the surrounding contract propagates
//! outward without recovery.

/// Fatal invocation-level failure conditions.
pub mod error;
/// Ordered-insertion, unique-key map from string keys to raw bytes.
pub mod typed_map;
/// The closed set of value kinds and their canonical byte codecs.
pub mod codec;
/// The domain identifier kinds: opaque fixed-width on-ledger identifiers.
pub mod ids;
/// Source dispatch and the strict/lenient/exists accessor triad.
pub mod getter;
/// In-memory execution context: the data one invocation runs against.
pub mod context;
/// Caller-identity authorization gates.
pub mod access;
/// Overflow-checked arithmetic over the fixed-width integer kinds.
pub mod math;
/// Write-side helpers for outgoing call parameters, and parameter reads.
pub mod params;
/// Write-side and read-side helpers for call results.
pub mod results;
/// Read-side helpers over the persisted state source.
pub mod state;
/// Accessors for the token balances attached to the incoming call.
pub mod incoming;
/// Capability discovery: asking a peer contract whether it supports an
/// interface.
pub mod interfaces;
/// Laws relating the builders, codecs and accessors to one another.
pub mod laws;
