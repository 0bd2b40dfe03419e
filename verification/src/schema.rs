//! The schema model: the in-memory representation of structs, enums, cases,
//! fields and types that every generator walks. Entities are built once per
//! generation run by a front end, are immutable during the run, and carry no
//! behaviour of their own.

use vstd::prelude::*;

use crate::inflect::Inflection;

verus! {

/// The primitive kinds a schema type can bottom out in. All numeric kinds
/// share the `number` runtime tag in emitted code.
#[derive(Clone, Copy, PartialEq, Eq, Structural, Debug)]
pub enum PrimitiveKind {
    Text,
    Int,
    UnsignedInt,
    Float,
    Boolean,
}

/// A schema type expression.
#[derive(Debug)]
pub enum Type {
    Primitive(PrimitiveKind),
    /// A reference to another schema entity by name. Emitted validators
    /// delegate to that entity's own validator rather than inlining it.
    Named(String),
    Array(Box<Type>),
    Tuple(Vec<Type>),
    Optional(Box<Type>),
}

/// One member of a record-shaped case or struct. Field order is significant
/// and preserved in emitted records.
#[derive(Debug)]
pub struct NamedField {
    pub name: String,
    pub type_: Type,
    /// The convention under which this field's name appears in wire form.
    pub inflection: Inflection,
}

/// The payload shape of an enum case.
#[derive(Debug)]
pub enum TypeFieldsDefinition {
    /// No payload.
    Unit,
    /// Positional payload; a single-member tuple is unwrapped (its type and
    /// validator are those of the sole member).
    Tuple(Vec<Type>),
    /// Record payload.
    Named(Vec<NamedField>),
}

/// One case of an enum.
#[derive(Debug)]
pub struct EnumCase {
    pub name: String,
    pub type_: TypeFieldsDefinition,
    /// The convention the front end stamped onto this case's payload fields;
    /// each `NamedField.inflection` of this case is expected to equal it.
    pub inflection: Inflection,
}

/// The tagging convention of an enum: how the active case is recoverable
/// from a serialized value.
#[derive(Debug)]
pub enum EnumType {
    /// All cases are unit cases; the enum is a closed set of string literals.
    Simple,
    /// Every value carries a field named `case_key` holding the case's
    /// inflected name; non-unit cases carry their payload under
    /// `content_key`, which is required as soon as any case has a payload.
    Complex { case_key: String, content_key: Option<String> },
    /// No discriminant field exists on the wire; case identity is inferred
    /// structurally, in declaration order.
    Untagged,
}

/// An enum entity. Case order is declaration order and is significant: it is
/// the disambiguation priority for untagged enums.
#[derive(Debug)]
pub struct Enum {
    pub name: String,
    pub cases: Vec<EnumCase>,
    /// The convention under which case names appear in wire form.
    pub inflection: Inflection,
    pub enum_type: EnumType,
}

/// A struct entity.
#[derive(Debug)]
pub struct Struct {
    pub name: String,
    pub fields: Vec<NamedField>,
}

/// A schema entity, as supplied by the front end.
#[derive(Debug)]
pub enum Entity {
    Struct(Struct),
    Enum(Enum),
}

/// A generation-time error: a defect of the schema itself, reported to the
/// operator; the affected entity's output is withheld.
#[derive(Clone, Debug)]
pub enum GenError {
    /// A `Complex` enum has a payload-bearing case but no content key.
    MissingContentKey { enum_name: String, case_name: String },
    /// Two non-unit cases of an `Untagged` enum share an inflected wrapper
    /// key, so no input could ever be attributed unambiguously.
    DuplicateWrapperKey { enum_name: String, key: String },
    /// A named reference to an entity absent from the supplied schema set.
    UnresolvedReference { entity_name: String, reference: String },
}

/// Whether a case carries no payload.
pub open spec fn spec_is_unit(c: EnumCase) -> bool {
    c.type_ is Unit
}

/// Whether a case carries no payload.
pub fn case_is_unit(c: &EnumCase) -> (b: bool)
    ensures
        b == spec_is_unit(*c),
{
    matches!(c.type_, TypeFieldsDefinition::Unit)
}

/// Whether some case of the sequence carries a payload.
pub open spec fn spec_has_non_unit_case(cases: Seq<EnumCase>) -> bool {
    exists|i: int| 0 <= i < cases.len() && !spec_is_unit(cases[i])
}

/// Whether some case of the enum carries a payload.
pub fn has_non_unit_case(cases: &Vec<EnumCase>) -> (b: bool)
    ensures
        b == spec_has_non_unit_case(cases@),
{
    let mut i: usize = 0;
    while i < cases.len()
        invariant
            0 <= i <= cases@.len(),
            forall|j: int| 0 <= j < i ==> spec_is_unit(cases@[j]),
        decreases cases@.len() - i,
    {
        if !case_is_unit(&cases[i]) {
            return true;
        }
        i += 1;
    }
    false
}

} // verus!
