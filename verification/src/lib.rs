//! Verified core of a multi-tenant record-synchronization runner.
//!
//! The library covers the orchestration core: deriving a fixed-format
//! identifier from a record's natural key, planning the derived artifacts
//! (barcode images and a printable label), idempotently upserting entities
//! into a local store keyed by tenant and natural key, deciding print
//! dispatches, and aggregating per-tenant job outcomes under a declared
//! policy table.

pub mod artifact;
pub mod barcode;
pub mod dispatch;
pub mod entity;
pub mod errors;
pub mod pipeline;
pub mod print;
pub mod store;
pub mod text;
