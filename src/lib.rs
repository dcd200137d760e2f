//! Forward declarations of foreign types, modelled as data.
//!
//! A foreign type that is not yet known in full is represented by an
//! incomplete placeholder that carries the type's identity (a name). Values,
//! pointers and references may be reinterpreted between any two types that
//! carry the same identity, and between nothing else.
pub mod symbol;
pub mod types;
pub mod cast;
pub mod laws;
pub mod bindings;
pub mod registry;
