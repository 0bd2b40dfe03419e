//! The identifier-casing (inflection) engine.
//!
//! Every place that writes an identifier into generated source text — case
//! labels, constant maps, field keys — goes through [`inflect`], so the type
//! emitter and the validator emitter always agree on the wire form of a name.

use vstd::prelude::*;

verus! {

/// A naming convention applied to a declared identifier before it is written
/// into generated source text.
#[derive(Clone, Copy, PartialEq, Eq, Structural, Debug)]
pub enum Inflection {
    Unchanged,
    Lower,
    Upper,
    Camel,
    Snake,
    Pascal,
    ScreamingSnake,
    Kebab,
}

/// The cased form of an identifier under a convention: a pure function of
/// its two arguments. The concrete casing rules live in an outside crate;
/// every emitter and every law speaks of this one function.
pub uninterp spec fn inflected(c: Inflection, s: Seq<char>) -> Seq<char>;

/// Relies on `type_reflect_core::Inflection::apply`: a casing transformation
/// whose result depends only on the identifier and the convention, and which
/// returns the identifier unchanged under `Inflection::None`.
#[verifier::external_body]
fn apply_convention(name: &str, c: Inflection) -> (r: String)
    ensures
        r@ == inflected(c, name@),
        c == Inflection::Unchanged ==> r@ == name@,
{
    let conv = match c {
        Inflection::Unchanged => type_reflect_core::Inflection::None,
        Inflection::Lower => type_reflect_core::Inflection::Lower,
        Inflection::Upper => type_reflect_core::Inflection::Upper,
        Inflection::Camel => type_reflect_core::Inflection::Camel,
        Inflection::Snake => type_reflect_core::Inflection::Snake,
        Inflection::Pascal => type_reflect_core::Inflection::Pascal,
        Inflection::ScreamingSnake => type_reflect_core::Inflection::ScreamingSnake,
        Inflection::Kebab => type_reflect_core::Inflection::Kebab,
    };
    conv.apply(name)
}

/// The wire form of `name` under convention `c`.
pub fn inflect(name: &str, c: Inflection) -> (r: String)
    ensures
        r@ == inflected(c, name@),
        c == Inflection::Unchanged ==> r@ == name@,
{
    apply_convention(name, c)
}

} // verus!
