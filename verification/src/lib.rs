//! Version-independent domain model for a JSON-RPC wallet service, together
//! with the per-version wire records and the fallible field converters that
//! turn a decoded wire reply into a validated domain value.
//!
//! A wire record mirrors exactly what one service version emits; its
//! `into_model` conversion validates every field in declaration order,
//! stopping at the first failure with an error that names the failing field
//! and wraps the field converter's own cause.

pub mod amount;
pub mod hexbytes;
pub mod primitives;
pub mod address;
pub mod keys;
pub mod tx;
pub mod model;
pub mod v17;
