//! Transformation engine for deriving string labels from the variant
//! identifiers of a finite enumerated type, and for recovering a variant
//! from its label.
//!
//! The engine is a single-pass pipeline: a configuration parser resolves
//! the requested case style, a case-conversion layer derives one label per
//! variant identifier, and a mapping generator builds the forward
//! (variant to label) and inverse (label to variant) tables.

pub mod case;
pub mod config;
pub mod mapping;
