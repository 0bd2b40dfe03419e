//! A generator of TypeScript type declarations and matching runtime
//! validators from an abstract schema of structs and enums.
//!
//! The schema model ([`schema`]) describes structs and payload-bearing
//! enums together with the tagging convention of each enum. For every
//! entity the library emits a type declaration ([`type_script`]) and a
//! validator ([`ts_validation`]) that re-derives the type from untyped
//! input. The identifier-casing engine ([`inflect`]) is shared by both
//! emitters, so the two can never disagree about the wire form of a name.
//! [`semantics`] gives the reference meaning of the emitted validators,
//! against which the disambiguation and arity rules are stated and proved.

pub mod emitter;
pub mod inflect;
pub mod laws;
pub mod numtext;
pub mod references;
pub mod schema;
pub mod semantics;
pub mod ts_format;
pub mod ts_source;
pub mod ts_type;
pub mod ts_validation;
pub mod type_script;
