//! Code synthesis for record shapes.
//!
//! Given a structural description of a record type (field names, declared
//! types, generic parameters and per-field annotations), this crate emits two
//! families of companion code as plain text fragments: a builder companion
//! type with chained setters and a validated build step, and a structural
//! formatting implementation with inferred generic bounds.  The front-end
//! that produces shape descriptions and the back-end that compiles the
//! emitted fragments are outside this crate.

/// The shape description: the structural input both generators consume.
pub mod shape;
/// Classification of declared types into the recognized container families.
pub mod classify;
/// Parsing and validation of declarative per-field annotations.
pub mod attrs;
/// The builder-companion generator.
pub mod builder_gen;
/// The structural-formatting generator and its generic-bound inference.
pub mod debug_gen;
/// A small semantic model of the emitted builder and formatting code.
pub mod eval;
/// Properties of the generators, proved once for every shape.
pub mod laws;
