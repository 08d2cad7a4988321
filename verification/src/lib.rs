//! Resolution of declarative field annotations into one canonical field
//! descriptor.
//!
//! A field carries an ordered sequence of annotation blocks; each block in the
//! recognized namespace contributes zero or more annotation occurrences. This
//! crate flattens the occurrences in order, classifies them by kind, applies a
//! uniqueness policy per single-valued kind and a cross-group exclusion rule
//! for the two argument forms, and assembles the resolved field descriptor, or
//! reports the first conflict with a source span covering every contributing
//! occurrence.

pub mod attrs;
pub mod descriptor;
pub mod error;
pub mod laws;
pub mod resolve;
pub mod span;
