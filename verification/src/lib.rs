//! Presence synchronization engine for a proxy-management application.
//!
//! The crate models the four pieces of the presence feature that carry real
//! invariants: the serialized command actor that owns the single connection
//! to the external presence service, the supervisor that keeps at most one
//! update loop alive, the traffic accumulator that turns resettable session
//! counters into monotone lifetime totals, and the resolver that walks a
//! possibly-cyclic graph of named proxy groups to find the selected node.
//! Byte formatting and the small persisted traffic record round it out.

pub mod activity;
pub mod context;
pub mod json;
pub mod numfmt;
pub mod persist;
pub mod resolver;
pub mod rpc;
pub mod supervisor;
pub mod stream;
pub mod traffic;

pub use numfmt::format_bytes;
pub use numfmt::format_speed;
