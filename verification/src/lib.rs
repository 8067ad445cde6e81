//! Loading and validation of object-space configuration documents for a
//! sensor-calibration pipeline.
//!
//! A configuration names, for each supported component type (currently only
//! cameras), the calibration-target detector in use and the descriptor that
//! fixes the object-space coordinates of its features, together with their
//! numeric parameters.
//!
//! The text format is TOML; an outside crate turns text into a generic
//! tree of tables, arrays and scalars.  Everything after that point — the
//! typed schema, the tag dispatch that selects a variant, the strict
//! field-set checks, and the semantic constraints on the numbers — is this
//! crate's own, verified logic.

pub mod decode;
pub mod encode;
pub mod error;
pub mod float_bits;
pub mod loader;
pub mod schema;
pub mod tree;
