//! Decoder for PCB footprint definitions given as symbolic-expression trees.
//!
//! A footprint file is read elsewhere into a generic tree of atoms and lists
//! (`sexp::Sexp`). This crate turns such a tree into the strongly typed
//! footprint model in `data`: graphic primitives, pads, text elements and
//! metadata, validating tags, arities and leaf tokens along the way.

pub mod composites;
pub mod data;
pub mod de;
pub mod elements;
pub mod err;
pub mod laws;
pub mod num;
pub mod parts;
pub mod sexp;
pub mod values;
