//! The reference semantics of the emitted validators: a direct definition,
//! over an untyped JSON-like value, of what each generated `validate`
//! function accepts and returns. The disambiguation rules (sequential tag
//! dispatch, first-match wrapper keys, exact tuple arity) are stated and
//! proved against these functions, and the tests exercise them on concrete
//! values.

use vstd::prelude::*;

use crate::inflect::{inflect, inflected};
use crate::schema::{
    case_is_unit, has_non_unit_case, spec_has_non_unit_case, spec_is_unit, Entity, Enum, EnumCase, EnumType,
    NamedField, PrimitiveKind, Struct, Type, TypeFieldsDefinition,
};
use crate::ts_type::spec_field_key;

verus! {

/// An untyped input value, as a validator sees it. A number's numeric value
/// is irrelevant to validation except for its truthiness, so only whether it
/// is zero is modelled.
#[derive(Debug)]
pub enum JsonValue {
    Null,
    Bool(bool),
    Num { nonzero: bool },
    Text(String),
    Arr(Vec<JsonValue>),
    Obj(Vec<(String, JsonValue)>),
}

/// The runtime kind of a value, as validation failure messages report it.
#[derive(Clone, Copy, PartialEq, Eq, Structural, Debug)]
pub enum ValueKind {
    Null,
    Boolean,
    Number,
    Text,
    List,
    Record,
    /// An absent value: a field or key the input does not carry.
    Undefined,
}

/// A runtime validation failure, by kind. The emitted validators fail with
/// messages that also carry the failing value's path; the semantics reports
/// the kind of failure and the expected and observed shapes.
#[derive(Clone, Copy, PartialEq, Eq, Structural, Debug)]
pub enum VError {
    TypeMismatch { expected: ValueKind, found: ValueKind },
    /// A tuple arity mismatch: a count mismatch is a failure, never ignored.
    LengthMismatch { expected: usize, found: usize },
    MissingField,
    UnrecognizedTag,
    NoCaseMatched,
}

/// The runtime kind of a value.
pub open spec fn spec_kind_of(v: JsonValue) -> ValueKind {
    match v {
        JsonValue::Null => ValueKind::Null,
        JsonValue::Bool(_) => ValueKind::Boolean,
        JsonValue::Num { .. } => ValueKind::Number,
        JsonValue::Text(_) => ValueKind::Text,
        JsonValue::Arr(_) => ValueKind::List,
        JsonValue::Obj(_) => ValueKind::Record,
    }
}

/// The runtime kind of a value.
pub fn kind_of(v: &JsonValue) -> (k: ValueKind)
    ensures
        k == spec_kind_of(*v),
{
    match v {
        JsonValue::Null => ValueKind::Null,
        JsonValue::Bool(_) => ValueKind::Boolean,
        JsonValue::Num { .. } => ValueKind::Number,
        JsonValue::Text(_) => ValueKind::Text,
        JsonValue::Arr(_) => ValueKind::List,
        JsonValue::Obj(_) => ValueKind::Record,
    }
}

/// Truthiness, as the emitted wrapper-key tests see it: null, false, zero
/// and the empty string are falsy; every list and record is truthy.
pub open spec fn spec_is_truthy(v: JsonValue) -> bool {
    match v {
        JsonValue::Null => false,
        JsonValue::Bool(b) => b,
        JsonValue::Num { nonzero } => nonzero,
        JsonValue::Text(s) => s@.len() > 0,
        JsonValue::Arr(_) => true,
        JsonValue::Obj(_) => true,
    }
}

/// Truthiness of a value.
pub fn is_truthy(v: &JsonValue) -> (b: bool)
    ensures
        b == spec_is_truthy(*v),
{
    match v {
        JsonValue::Null => false,
        JsonValue::Bool(b) => *b,
        JsonValue::Num { nonzero } => *nonzero,
        JsonValue::Text(s) => !s.as_str().is_empty(),
        JsonValue::Arr(_) => true,
        JsonValue::Obj(_) => true,
    }
}

/// Whether the record test of emitted validators accepts the value: both
/// records and lists are objects at runtime; null is not.
pub open spec fn spec_record_like(v: JsonValue) -> bool {
    v is Obj || v is Arr
}

/// Whether the record test of emitted validators accepts the value.
pub fn record_like(v: &JsonValue) -> (b: bool)
    ensures
        b == spec_record_like(*v),
{
    matches!(v, JsonValue::Obj(_)) || matches!(v, JsonValue::Arr(_))
}

/// The string-keyed entries of a value: a record's own entries; a list has
/// none.
pub open spec fn spec_entries_of(v: JsonValue) -> Seq<(String, JsonValue)> {
    if v is Obj {
        v->Obj_0@
    } else {
        Seq::empty()
    }
}

/// The first binding of `key` among the entries from index `i` on; keys are
/// assumed unique, as they are in parsed JSON.
pub open spec fn spec_obj_get(entries: Seq<(String, JsonValue)>, key: Seq<char>, i: int) -> Option<
    JsonValue,
>
    decreases entries.len() - i,
        when 0 <= i
{
    if i >= entries.len() {
        None
    } else if entries[i].0@ == key {
        Some(entries[i].1)
    } else {
        spec_obj_get(entries, key, i + 1)
    }
}

/// The value a validator reads at `key` of `v`; `None` is an absent
/// (undefined) value.
pub open spec fn spec_lookup(v: JsonValue, key: Seq<char>) -> Option<JsonValue> {
    spec_obj_get(spec_entries_of(v), key, 0)
}

/// A bound lookup result is one of the entries.
proof fn lemma_obj_get_element(entries: Seq<(String, JsonValue)>, key: Seq<char>, i: int)
    requires
        0 <= i,
    ensures
        spec_obj_get(entries, key, i) matches Some(w) ==> exists|j: int|
            i <= j < entries.len() && w == #[trigger] entries[j].1,
    decreases entries.len() - i,
{
    if i < entries.len() {
        if entries[i].0@ == key {
            assert(spec_obj_get(entries, key, i) == Some(entries[i].1));
        } else {
            lemma_obj_get_element(entries, key, i + 1);
        }
    }
}

/// A looked-up value sits strictly inside the value it was read from.
proof fn lemma_lookup_decreases(v: JsonValue, key: Seq<char>)
    ensures
        spec_lookup(v, key) matches Some(w) ==> decreases_to!(v => w),
{
    if spec_lookup(v, key) is Some {
        let w = spec_lookup(v, key)->0;
        lemma_obj_get_element(spec_entries_of(v), key, 0);
        let j = choose|j: int|
            0 <= j < spec_entries_of(v).len() && w == #[trigger] spec_entries_of(v)[j].1;
        assert(v is Obj);
        assert(decreases_to!(v => v->Obj_0));
        assert(decreases_to!(v->Obj_0 => v->Obj_0@));
        assert(decreases_to!(v->Obj_0@ => v->Obj_0@[j]));
        assert(decreases_to!(v->Obj_0@[j] => v->Obj_0@[j].1));
        assert(decreases_to!(v => w));
    }
}

/// Looks up `key` among a record's entries, first binding wins.
pub fn obj_get<'a>(entries: &'a Vec<(String, JsonValue)>, key: &String) -> (r: Option<
    &'a JsonValue,
>)
    ensures
        match r {
            Some(w) => spec_obj_get(entries@, key@, 0) == Some(*w),
            None => spec_obj_get(entries@, key@, 0) is None,
        },
{
    let mut i: usize = 0;
    while i < entries.len()
        invariant
            0 <= i <= entries@.len(),
            spec_obj_get(entries@, key@, 0) == spec_obj_get(entries@, key@, i as int),
        decreases entries@.len() - i,
    {
        if entries[i].0.eq(key) {
            return Some(&entries[i].1);
        }
        i += 1;
    }
    None
}

/// The name an entity is registered (and referenced) under.
pub open spec fn spec_entity_name(ent: Entity) -> Seq<char> {
    match ent {
        Entity::Struct(s) => s.name@,
        Entity::Enum(e) => e.name@,
    }
}

/// The first entity named `name`, from index `i` on.
pub open spec fn spec_lookup_entity(env: Seq<Entity>, name: Seq<char>, i: int) -> Option<Entity>
    decreases env.len() - i,
        when 0 <= i
{
    if i >= env.len() {
        None
    } else if spec_entity_name(env[i]) == name {
        Some(env[i])
    } else {
        spec_lookup_entity(env, name, i + 1)
    }
}

/// Looks up the schema entity a named reference points at.
pub fn lookup_entity<'a>(env: &'a Vec<Entity>, name: &String) -> (r: Option<&'a Entity>)
    ensures
        match r {
            Some(ent) => spec_lookup_entity(env@, name@, 0) == Some(*ent),
            None => spec_lookup_entity(env@, name@, 0) is None,
        },
{
    let mut i: usize = 0;
    while i < env.len()
        invariant
            0 <= i <= env@.len(),
            spec_lookup_entity(env@, name@, 0) == spec_lookup_entity(env@, name@, i as int),
        decreases env@.len() - i,
    {
        let matches_name = match &env[i] {
            Entity::Struct(s) => s.name.eq(name),
            Entity::Enum(e) => e.name.eq(name),
        };
        if matches_name {
            return Some(&env[i]);
        }
        i += 1;
    }
    None
}

/// The runtime kind a primitive kind's `typeof` test expects.
pub open spec fn spec_primitive_expected(k: PrimitiveKind) -> ValueKind {
    match k {
        PrimitiveKind::Text => ValueKind::Text,
        PrimitiveKind::Int => ValueKind::Number,
        PrimitiveKind::UnsignedInt => ValueKind::Number,
        PrimitiveKind::Float => ValueKind::Number,
        PrimitiveKind::Boolean => ValueKind::Boolean,
    }
}

/// What validating an absent (undefined) value against `t` yields: only an
/// optional type accepts absence; every other validation fails on the shape
/// test it starts with.
pub open spec fn spec_validate_undefined(env: Seq<Entity>, t: Type) -> Result<(), VError>
    decreases t,
{
    match t {
        Type::Primitive(k) => Err(
            VError::TypeMismatch {
                expected: spec_primitive_expected(k),
                found: ValueKind::Undefined,
            },
        ),
        Type::Named(n) => match spec_lookup_entity(env, n@, 0) {
            Some(ent) => match ent {
                Entity::Struct(_) => Err(
                    VError::TypeMismatch {
                        expected: ValueKind::Record,
                        found: ValueKind::Undefined,
                    },
                ),
                Entity::Enum(e) => match e.enum_type {
                    EnumType::Simple => Err(VError::NoCaseMatched),
                    EnumType::Complex { .. } => Err(
                        VError::TypeMismatch {
                            expected: ValueKind::Record,
                            found: ValueKind::Undefined,
                        },
                    ),
                    EnumType::Untagged => if spec_has_non_unit_case(e.cases@) {
                        Err(
                            VError::TypeMismatch {
                                expected: ValueKind::Record,
                                found: ValueKind::Undefined,
                            },
                        )
                    } else {
                        Err(VError::NoCaseMatched)
                    },
                },
            },
            None => Err(VError::NoCaseMatched),
        },
        Type::Array(_) => Err(
            VError::TypeMismatch { expected: ValueKind::List, found: ValueKind::Undefined },
        ),
        Type::Tuple(_) => Err(
            VError::TypeMismatch { expected: ValueKind::List, found: ValueKind::Undefined },
        ),
        Type::Optional(_) => Ok(()),
    }
}

/// What validating `v` against type `t` yields, with named references
/// resolved in `env`. (An unresolved reference — a schema defect that
/// generation reports — is read as no case matching.)
pub open spec fn spec_validate_type(env: Seq<Entity>, t: Type, v: JsonValue) -> Result<(), VError>
    decreases v, 3int, t, 0int,
{
    match t {
        Type::Primitive(k) => if spec_kind_of(v) == spec_primitive_expected(k) {
            Ok(())
        } else {
            Err(
                VError::TypeMismatch {
                    expected: spec_primitive_expected(k),
                    found: spec_kind_of(v),
                },
            )
        },
        Type::Named(n) => match spec_lookup_entity(env, n@, 0) {
            Some(ent) => spec_validate_entity(env, ent, v),
            None => Err(VError::NoCaseMatched),
        },
        Type::Array(et) => match v {
            JsonValue::Arr(elems) => spec_validate_elems(env, *et, elems@, 0),
            _ => Err(VError::TypeMismatch { expected: ValueKind::List, found: spec_kind_of(v) }),
        },
        Type::Tuple(ms) => match v {
            JsonValue::Arr(elems) => if elems@.len() == ms@.len() {
                spec_validate_members(env, ms@, elems@, 0)
            } else {
                Err(
                    VError::LengthMismatch {
                        expected: ms@.len() as usize,
                        found: elems@.len() as usize,
                    },
                )
            },
            _ => Err(VError::TypeMismatch { expected: ValueKind::List, found: spec_kind_of(v) }),
        },
        Type::Optional(it) => if v is Null {
            Ok(())
        } else {
            spec_validate_type(env, *it, v)
        },
    }
}

/// Every element from index `i` on validates against the element type; the
/// first failure wins.
pub open spec fn spec_validate_elems(
    env: Seq<Entity>,
    t: Type,
    elems: Seq<JsonValue>,
    i: int,
) -> Result<(), VError>
    decreases elems, 3int, t, elems.len() - i,
        when 0 <= i <= elems.len()
{
    if i >= elems.len() {
        Ok(())
    } else {
        match spec_validate_type(env, t, elems[i]) {
            Err(e) => Err(e),
            Ok(()) => spec_validate_elems(env, t, elems, i + 1),
        }
    }
}

/// Every tuple position from `i` on validates against its member type; the
/// first failure wins.
pub open spec fn spec_validate_members(
    env: Seq<Entity>,
    ms: Seq<Type>,
    elems: Seq<JsonValue>,
    i: int,
) -> Result<(), VError>
    decreases elems, 3int, ms, elems.len() - i,
        when 0 <= i <= elems.len() && elems.len() == ms.len()
{
    if i >= elems.len() {
        Ok(())
    } else {
        match spec_validate_type(env, ms[i], elems[i]) {
            Err(e) => Err(e),
            Ok(()) => spec_validate_members(env, ms, elems, i + 1),
        }
    }
}

/// What an entity's own validator yields on `v`.
pub open spec fn spec_validate_entity(env: Seq<Entity>, ent: Entity, v: JsonValue) -> Result<
    (),
    VError,
>
    decreases v, 2int, Type::Primitive(PrimitiveKind::Boolean), 0int,
{
    match ent {
        Entity::Struct(s) => if spec_record_like(v) {
            spec_validate_fields(env, s.fields@, v, 0)
        } else {
            Err(VError::TypeMismatch { expected: ValueKind::Record, found: spec_kind_of(v) })
        },
        Entity::Enum(e) => match spec_validate_enum(env, e, v) {
            Ok(_) => Ok(()),
            Err(er) => Err(er),
        },
    }
}

/// Every field from index `i` on is present (unless optional) and
/// validates; the first failure wins.
pub open spec fn spec_validate_fields(
    env: Seq<Entity>,
    fields: Seq<NamedField>,
    v: JsonValue,
    i: int,
) -> Result<(), VError>
    decreases v, 1int, Type::Primitive(PrimitiveKind::Boolean), fields.len() - i,
        when 0 <= i <= fields.len()
    via spec_validate_fields_decreases
{
    if i >= fields.len() {
        Ok(())
    } else {
        match spec_lookup(v, spec_field_key(fields[i])) {
            None => if fields[i].type_ is Optional {
                spec_validate_fields(env, fields, v, i + 1)
            } else {
                Err(VError::MissingField)
            },
            Some(w) => match spec_validate_type(env, fields[i].type_, w) {
                Err(e) => Err(e),
                Ok(()) => spec_validate_fields(env, fields, v, i + 1),
            },
        }
    }
}

#[via_fn]
proof fn spec_validate_fields_decreases(
    env: Seq<Entity>,
    fields: Seq<NamedField>,
    v: JsonValue,
    i: int,
) {
    if 0 <= i < fields.len() {
        lemma_lookup_decreases(v, spec_field_key(fields[i]));
    }
}

/// Whether the tag read from the input matches a case label: it must be the
/// label's exact text.
pub open spec fn spec_tag_matches(tag: Option<JsonValue>, label: Seq<char>) -> bool {
    tag matches Some(t) && t matches JsonValue::Text(s) && s@ == label
}

/// The first case from index `i` on whose label is the input string;
/// otherwise the no-case-matched failure.
pub open spec fn spec_simple_first(e: Enum, s: Seq<char>, i: int) -> Result<int, VError>
    decreases e.cases@.len() - i,
        when 0 <= i
{
    if i >= e.cases@.len() {
        Err(VError::NoCaseMatched)
    } else if inflected(e.inflection, e.cases@[i].name@) == s {
        Ok(i)
    } else {
        spec_simple_first(e, s, i + 1)
    }
}

/// The first unit case from index `i` on whose literal is the input string;
/// otherwise the no-case-matched failure.
pub open spec fn spec_unit_first(e: Enum, s: Seq<char>, i: int) -> Result<int, VError>
    decreases e.cases@.len() - i,
        when 0 <= i
{
    if i >= e.cases@.len() {
        Err(VError::NoCaseMatched)
    } else if spec_is_unit(e.cases@[i]) && inflected(e.inflection, e.cases@[i].name@) == s {
        Ok(i)
    } else {
        spec_unit_first(e, s, i + 1)
    }
}

/// What a matched complex case's payload validation yields: nothing is
/// checked for a unit case; the content under the content key is checked
/// against the case's payload shape.
pub open spec fn spec_complex_payload(
    env: Seq<Entity>,
    c: EnumCase,
    co: Option<String>,
    v: JsonValue,
) -> Result<(), VError>
    decreases v, 0int, Type::Primitive(PrimitiveKind::Boolean), 0int,
    via spec_complex_payload_decreases
{
    match c.type_ {
        TypeFieldsDefinition::Unit => Ok(()),
        TypeFieldsDefinition::Tuple(ms) => {
            let content = match co {
                Some(ck) => spec_lookup(v, ck@),
                None => None,
            };
            let ty = if ms@.len() == 1 {
                ms@[0]
            } else {
                Type::Tuple(ms)
            };
            match content {
                None => spec_validate_undefined(env, ty),
                Some(w) => spec_validate_type(env, ty, w),
            }
        },
        TypeFieldsDefinition::Named(fs) => {
            let content = match co {
                Some(ck) => spec_lookup(v, ck@),
                None => None,
            };
            match content {
                None => Err(
                    VError::TypeMismatch {
                        expected: ValueKind::Record,
                        found: ValueKind::Undefined,
                    },
                ),
                Some(w) => if spec_record_like(w) {
                    spec_validate_fields(env, fs@, w, 0)
                } else {
                    Err(
                        VError::TypeMismatch {
                            expected: ValueKind::Record,
                            found: spec_kind_of(w),
                        },
                    )
                },
            }
        },
    }
}

#[via_fn]
proof fn spec_complex_payload_decreases(
    env: Seq<Entity>,
    c: EnumCase,
    co: Option<String>,
    v: JsonValue,
) {
    match co {
        Some(ck) => lemma_lookup_decreases(v, ck@),
        None => (),
    }
}

/// The first case from index `i` on whose label equals the input's tag; its
/// payload validation decides. An input whose tag matches no case fails
/// with the unrecognized-tag error.
pub open spec fn spec_complex_first(
    env: Seq<Entity>,
    e: Enum,
    co: Option<String>,
    tag: Option<JsonValue>,
    v: JsonValue,
    i: int,
) -> Result<int, VError>
    decreases v, 1int, Type::Primitive(PrimitiveKind::Boolean), e.cases@.len() - i,
        when 0 <= i
{
    if i >= e.cases@.len() {
        Err(VError::UnrecognizedTag)
    } else if spec_tag_matches(tag, inflected(e.inflection, e.cases@[i].name@)) {
        match spec_complex_payload(env, e.cases@[i], co, v) {
            Ok(()) => Ok(i),
            Err(er) => Err(er),
        }
    } else {
        spec_complex_first(env, e, co, tag, v, i + 1)
    }
}

/// What a matched untagged case's payload validation yields on the value
/// found under its wrapper key.
pub open spec fn spec_untagged_payload(env: Seq<Entity>, c: EnumCase, w: JsonValue) -> Result<
    (),
    VError,
>
    decreases w, 4int, Type::Primitive(PrimitiveKind::Boolean), 0int,
{
    match c.type_ {
        TypeFieldsDefinition::Unit => Ok(()),
        TypeFieldsDefinition::Tuple(ms) => {
            let ty = if ms@.len() == 1 {
                ms@[0]
            } else {
                Type::Tuple(ms)
            };
            spec_validate_type(env, ty, w)
        },
        TypeFieldsDefinition::Named(fs) => if spec_record_like(w) {
            spec_validate_fields(env, fs@, w, 0)
        } else {
            Err(VError::TypeMismatch { expected: ValueKind::Record, found: spec_kind_of(w) })
        },
    }
}

/// The first payload-bearing case from index `i` on whose wrapper key holds
/// a truthy value; its payload validation decides. Declaration order is the
/// disambiguation priority: the first match wins.
pub open spec fn spec_untagged_first(env: Seq<Entity>, e: Enum, v: JsonValue, i: int) -> Result<
    int,
    VError,
>
    decreases v, 1int, Type::Primitive(PrimitiveKind::Boolean), e.cases@.len() - i,
        when 0 <= i
    via spec_untagged_first_decreases
{
    if i >= e.cases@.len() {
        Err(VError::NoCaseMatched)
    } else if spec_is_unit(e.cases@[i]) {
        spec_untagged_first(env, e, v, i + 1)
    } else {
        let key = inflected(e.inflection, e.cases@[i].name@);
        match spec_lookup(v, key) {
            Some(w) => if spec_is_truthy(w) {
                match spec_untagged_payload(env, e.cases@[i], w) {
                    Ok(()) => Ok(i),
                    Err(er) => Err(er),
                }
            } else {
                spec_untagged_first(env, e, v, i + 1)
            },
            None => spec_untagged_first(env, e, v, i + 1),
        }
    }
}

#[via_fn]
proof fn spec_untagged_first_decreases(env: Seq<Entity>, e: Enum, v: JsonValue, i: int) {
    if 0 <= i < e.cases@.len() && !spec_is_unit(e.cases@[i]) {
        lemma_lookup_decreases(v, inflected(e.inflection, e.cases@[i].name@));
    }
}

/// Whether some case carries no payload.
pub open spec fn spec_has_unit_case(cases: Seq<EnumCase>) -> bool {
    exists|i: int| 0 <= i < cases.len() && spec_is_unit(cases[i])
}

/// What an enum's validator yields on `v`: the index of the accepted case,
/// or the failure, under the enum's tagging convention.
pub open spec fn spec_validate_enum(env: Seq<Entity>, e: Enum, v: JsonValue) -> Result<int, VError>
    decreases v, 1int, Type::Primitive(PrimitiveKind::Boolean), e.cases@.len() as int + 1,
{
    match e.enum_type {
        EnumType::Simple => match v {
            JsonValue::Text(s) => spec_simple_first(e, s@, 0),
            _ => Err(VError::NoCaseMatched),
        },
        EnumType::Complex { case_key, content_key } => {
            if !spec_record_like(v) {
                Err(VError::TypeMismatch { expected: ValueKind::Record, found: spec_kind_of(v) })
            } else {
                spec_complex_first(env, e, content_key, spec_lookup(v, case_key@), v, 0)
            }
        },
        EnumType::Untagged => {
            if spec_has_unit_case(e.cases@) && v is Text {
                spec_unit_first(e, v->Text_0@, 0)
            } else if spec_has_non_unit_case(e.cases@) {
                if !spec_record_like(v) {
                    Err(
                        VError::TypeMismatch {
                            expected: ValueKind::Record,
                            found: spec_kind_of(v),
                        },
                    )
                } else {
                    spec_untagged_first(env, e, v, 0)
                }
            } else {
                Err(VError::NoCaseMatched)
            }
        },
    }
}


/// Whether some case carries no payload.
pub fn has_unit_case(cases: &Vec<EnumCase>) -> (b: bool)
    ensures
        b == spec_has_unit_case(cases@),
{
    let mut i: usize = 0;
    while i < cases.len()
        invariant
            0 <= i <= cases@.len(),
            forall|j: int| 0 <= j < i ==> !spec_is_unit(cases@[j]),
        decreases cases@.len() - i,
    {
        if case_is_unit(&cases[i]) {
            return true;
        }
        i += 1;
    }
    false
}

/// Validates an absent (undefined) value against `t`: only an optional type
/// accepts absence.
pub fn validate_undefined(env: &Vec<Entity>, t: &Type) -> (r: Result<(), VError>)
    ensures
        r == spec_validate_undefined(env@, *t),
{
    match t {
        Type::Primitive(k) => Err(
            VError::TypeMismatch {
                expected: match k {
                    PrimitiveKind::Text => ValueKind::Text,
                    PrimitiveKind::Int => ValueKind::Number,
                    PrimitiveKind::UnsignedInt => ValueKind::Number,
                    PrimitiveKind::Float => ValueKind::Number,
                    PrimitiveKind::Boolean => ValueKind::Boolean,
                },
                found: ValueKind::Undefined,
            },
        ),
        Type::Named(n) => match lookup_entity(env, n) {
            Some(ent) => match ent {
                Entity::Struct(_) => Err(
                    VError::TypeMismatch {
                        expected: ValueKind::Record,
                        found: ValueKind::Undefined,
                    },
                ),
                Entity::Enum(e) => match &e.enum_type {
                    EnumType::Simple => Err(VError::NoCaseMatched),
                    EnumType::Complex { .. } => Err(
                        VError::TypeMismatch {
                            expected: ValueKind::Record,
                            found: ValueKind::Undefined,
                        },
                    ),
                    EnumType::Untagged => if has_non_unit_case(&e.cases) {
                        Err(
                            VError::TypeMismatch {
                                expected: ValueKind::Record,
                                found: ValueKind::Undefined,
                            },
                        )
                    } else {
                        Err(VError::NoCaseMatched)
                    },
                },
            },
            None => Err(VError::NoCaseMatched),
        },
        Type::Array(_) => Err(
            VError::TypeMismatch { expected: ValueKind::List, found: ValueKind::Undefined },
        ),
        Type::Tuple(_) => Err(
            VError::TypeMismatch { expected: ValueKind::List, found: ValueKind::Undefined },
        ),
        Type::Optional(_) => Ok(()),
    }
}

/// Validates `v` against type `t`, resolving named references in `env`.
pub fn validate_type(env: &Vec<Entity>, t: &Type, v: &JsonValue) -> (r: Result<(), VError>)
    ensures
        r == spec_validate_type(env@, *t, *v),
    decreases *v, 3int, *t, 0int,
{
    match t {
        Type::Primitive(k) => {
            let expected = match k {
                PrimitiveKind::Text => ValueKind::Text,
                PrimitiveKind::Int => ValueKind::Number,
                PrimitiveKind::UnsignedInt => ValueKind::Number,
                PrimitiveKind::Float => ValueKind::Number,
                PrimitiveKind::Boolean => ValueKind::Boolean,
            };
            let found = kind_of(v);
            if found == expected {
                Ok(())
            } else {
                Err(VError::TypeMismatch { expected, found })
            }
        },
        Type::Named(n) => match lookup_entity(env, n) {
            Some(ent) => validate_entity(env, ent, v),
            None => Err(VError::NoCaseMatched),
        },
        Type::Array(et) => match v {
            JsonValue::Arr(elems) => {
                let mut i: usize = 0;
                while i < elems.len()
                    invariant
                        0 <= i <= elems@.len(),
                        *t == Type::Array(*et),
                        *v == JsonValue::Arr(*elems),
                        spec_validate_elems(env@, *(*et), elems@, 0) == spec_validate_elems(
                            env@,
                            *(*et),
                            elems@,
                            i as int,
                        ),
                        decreases_to!(*v => elems@),
                    decreases elems@.len() - i,
                {
                    proof {
                        assert(decreases_to!(elems@ => elems@[i as int]));
                    }
                    match validate_type(env, &**et, &elems[i]) {
                        Err(er) => {
                            return Err(er);
                        },
                        Ok(()) => {},
                    }
                    i += 1;
                }
                Ok(())
            },
            _ => Err(VError::TypeMismatch { expected: ValueKind::List, found: kind_of(v) }),
        },
        Type::Tuple(ms) => match v {
            JsonValue::Arr(elems) => {
                if elems.len() != ms.len() {
                    return Err(
                        VError::LengthMismatch { expected: ms.len(), found: elems.len() },
                    );
                }
                let mut i: usize = 0;
                while i < elems.len()
                    invariant
                        0 <= i <= elems@.len(),
                        elems@.len() == ms@.len(),
                        *t == Type::Tuple(*ms),
                        *v == JsonValue::Arr(*elems),
                        spec_validate_members(env@, ms@, elems@, 0) == spec_validate_members(
                            env@,
                            ms@,
                            elems@,
                            i as int,
                        ),
                        decreases_to!(*v => elems@),
                    decreases elems@.len() - i,
                {
                    proof {
                        assert(decreases_to!(elems@ => elems@[i as int]));
                    }
                    match validate_type(env, &ms[i], &elems[i]) {
                        Err(er) => {
                            return Err(er);
                        },
                        Ok(()) => {},
                    }
                    i += 1;
                }
                Ok(())
            },
            _ => Err(VError::TypeMismatch { expected: ValueKind::List, found: kind_of(v) }),
        },
        Type::Optional(it) => {
            if matches!(v, JsonValue::Null) {
                Ok(())
            } else {
                validate_type(env, &**it, v)
            }
        },
    }
}

/// Validates `v` against a tuple shape with member types `ms`.
fn validate_tuple_members(env: &Vec<Entity>, ms: &Vec<Type>, w: &JsonValue) -> (r: Result<
    (),
    VError,
>)
    ensures
        r == spec_validate_type(env@, Type::Tuple(*ms), *w),
    decreases *w, 3int, Type::Primitive(PrimitiveKind::Boolean), 0int,
{
    match w {
        JsonValue::Arr(elems) => {
            if elems.len() != ms.len() {
                return Err(VError::LengthMismatch { expected: ms.len(), found: elems.len() });
            }
            let mut i: usize = 0;
            while i < elems.len()
                invariant
                    0 <= i <= elems@.len(),
                    elems@.len() == ms@.len(),
                    *w == JsonValue::Arr(*elems),
                    spec_validate_members(env@, ms@, elems@, 0) == spec_validate_members(
                        env@,
                        ms@,
                        elems@,
                        i as int,
                    ),
                    decreases_to!(*w => elems@),
                decreases elems@.len() - i,
            {
                proof {
                    assert(decreases_to!(elems@ => elems@[i as int]));
                }
                match validate_type(env, &ms[i], &elems[i]) {
                    Err(er) => {
                        return Err(er);
                    },
                    Ok(()) => {},
                }
                i += 1;
            }
            Ok(())
        },
        _ => Err(VError::TypeMismatch { expected: ValueKind::List, found: kind_of(w) }),
    }
}

/// Validates the fields of a record-shaped value, in declaration order.
pub fn validate_fields(env: &Vec<Entity>, fields: &Vec<NamedField>, v: &JsonValue) -> (r: Result<
    (),
    VError,
>)
    ensures
        r == spec_validate_fields(env@, fields@, *v, 0),
    decreases *v, 1int, Type::Primitive(PrimitiveKind::Boolean), 0int,
{
    let mut i: usize = 0;
    while i < fields.len()
        invariant
            0 <= i <= fields@.len(),
            spec_validate_fields(env@, fields@, *v, 0) == spec_validate_fields(
                env@,
                fields@,
                *v,
                i as int,
            ),
        decreases fields@.len() - i,
    {
        let key = crate::ts_type::field_key(&fields[i]);
        let looked: Option<&JsonValue> = match v {
            JsonValue::Obj(entries) => obj_get(entries, &key),
            _ => None,
        };
        proof {
            assert(match looked {
                Some(w) => spec_lookup(*v, spec_field_key(fields@[i as int])) == Some(*w),
                None => spec_lookup(*v, spec_field_key(fields@[i as int])) is None,
            });
        }
        match looked {
            None => {
                if !matches!(&fields[i].type_, Type::Optional(_)) {
                    return Err(VError::MissingField);
                }
            },
            Some(w) => {
                proof {
                    lemma_lookup_decreases(*v, spec_field_key(fields@[i as int]));
                    assert(decreases_to!(*v => *w));
                }
                match validate_type(env, &fields[i].type_, w) {
                    Err(er) => {
                        return Err(er);
                    },
                    Ok(()) => {},
                }
            },
        }
        i += 1;
    }
    Ok(())
}

/// Validates `v` against an entity: its own validator decides.
pub fn validate_entity(env: &Vec<Entity>, ent: &Entity, v: &JsonValue) -> (r: Result<(), VError>)
    ensures
        r == spec_validate_entity(env@, *ent, *v),
    decreases *v, 2int, Type::Primitive(PrimitiveKind::Boolean), 0int,
{
    match ent {
        Entity::Struct(st) => {
            if record_like(v) {
                validate_fields(env, &st.fields, v)
            } else {
                Err(VError::TypeMismatch { expected: ValueKind::Record, found: kind_of(v) })
            }
        },
        Entity::Enum(e) => match validate_enum(env, e, v) {
            Ok(_) => Ok(()),
            Err(er) => Err(er),
        },
    }
}

fn complex_payload(env: &Vec<Entity>, case: &EnumCase, content_key: &Option<String>, v: &JsonValue)
    -> (r: Result<(), VError>)
    ensures
        r == spec_complex_payload(env@, *case, *content_key, *v),
    decreases *v, 0int, Type::Primitive(PrimitiveKind::Boolean), 0int,
{
    match &case.type_ {
        TypeFieldsDefinition::Unit => Ok(()),
        TypeFieldsDefinition::Tuple(ms) => {
            let content: Option<&JsonValue> = match content_key {
                Some(ck) => match v {
                    JsonValue::Obj(entries) => obj_get(entries, ck),
                    _ => None,
                },
                None => None,
            };
            match content {
                None => {
                    if ms.len() == 1 {
                        let r = validate_undefined(env, &ms[0]);
                        proof {
                            assert(r == spec_complex_payload(env@, *case, *content_key, *v));
                        }
                        r
                    } else {
                        let r = Err::<(), VError>(
                            VError::TypeMismatch {
                                expected: ValueKind::List,
                                found: ValueKind::Undefined,
                            },
                        );
                        proof {
                            assert(r == spec_complex_payload(env@, *case, *content_key, *v));
                        }
                        r
                    }
                },
                Some(w) => {
                    proof {
                        if content_key is Some {
                            lemma_lookup_decreases(*v, content_key->0@);
                        }
                        assert(decreases_to!(*v => *w));
                    }
                    if ms.len() == 1 {
                        validate_type(env, &ms[0], w)
                    } else {
                        validate_tuple_members(env, ms, w)
                    }
                },
            }
        },
        TypeFieldsDefinition::Named(fs) => {
            let content: Option<&JsonValue> = match content_key {
                Some(ck) => match v {
                    JsonValue::Obj(entries) => obj_get(entries, ck),
                    _ => None,
                },
                None => None,
            };
            match content {
                None => Err(
                    VError::TypeMismatch {
                        expected: ValueKind::Record,
                        found: ValueKind::Undefined,
                    },
                ),
                Some(w) => {
                    proof {
                        if content_key is Some {
                            lemma_lookup_decreases(*v, content_key->0@);
                        }
                        assert(decreases_to!(*v => *w));
                    }
                    if record_like(w) {
                        validate_fields(env, fs, w)
                    } else {
                        Err(
                            VError::TypeMismatch {
                                expected: ValueKind::Record,
                                found: kind_of(w),
                            },
                        )
                    }
                },
            }
        },
    }
}

fn untagged_payload(env: &Vec<Entity>, case: &EnumCase, w: &JsonValue) -> (r: Result<(), VError>)
    ensures
        r == spec_untagged_payload(env@, *case, *w),
    decreases *w, 4int, Type::Primitive(PrimitiveKind::Boolean), 0int,
{
    match &case.type_ {
        TypeFieldsDefinition::Unit => Ok(()),
        TypeFieldsDefinition::Tuple(ms) => {
            if ms.len() == 1 {
                validate_type(env, &ms[0], w)
            } else {
                validate_tuple_members(env, ms, w)
            }
        },
        TypeFieldsDefinition::Named(fs) => {
            if record_like(w) {
                validate_fields(env, fs, w)
            } else {
                Err(VError::TypeMismatch { expected: ValueKind::Record, found: kind_of(w) })
            }
        },
    }
}

/// Validates `v` against an enum under its tagging convention, returning the
/// index of the accepted case.
pub fn validate_enum(env: &Vec<Entity>, e: &Enum, v: &JsonValue) -> (r: Result<usize, VError>)
    ensures
        ({
            let s = spec_validate_enum(env@, *e, *v);
            &&& (r is Ok <==> s is Ok)
            &&& (r matches Ok(k) ==> s == Ok::<int, VError>(k as int))
            &&& (r matches Err(er) ==> s == Err::<int, VError>(er))
        }),
    decreases *v, 1int, Type::Primitive(PrimitiveKind::Boolean), e.cases@.len() as int + 1,
{
    match &e.enum_type {
        EnumType::Simple => match v {
            JsonValue::Text(s) => {
                let mut i: usize = 0;
                while i < e.cases.len()
                    invariant
                        0 <= i <= e.cases@.len(),
                        e.enum_type is Simple,
                        v matches JsonValue::Text(sv) && sv@ == s@,
                        spec_simple_first(*e, s@, 0) == spec_simple_first(*e, s@, i as int),
                    decreases e.cases@.len() - i,
                {
                    let label = inflect(e.cases[i].name.as_str(), e.inflection);
                    if label.eq(s) {
                        return Ok(i);
                    }
                    i += 1;
                }
                Err(VError::NoCaseMatched)
            },
            _ => Err(VError::NoCaseMatched),
        },
        EnumType::Complex { case_key, content_key } => {
            if !record_like(v) {
                return Err(
                    VError::TypeMismatch { expected: ValueKind::Record, found: kind_of(v) },
                );
            }
            let tag: Option<&JsonValue> = match v {
                JsonValue::Obj(entries) => obj_get(entries, case_key),
                _ => None,
            };
            let ghost tag_spec = spec_lookup(*v, case_key@);
            proof {
                assert(match tag {
                    Some(w) => tag_spec == Some(*w),
                    None => tag_spec is None,
                });
            }
            let mut i: usize = 0;
            while i < e.cases.len()
                invariant
                    0 <= i <= e.cases@.len(),
                    e.enum_type matches EnumType::Complex { case_key: cks, content_key: cos }
                        && cks@ == case_key@ && cos == *content_key,
                    spec_record_like(*v),
                    tag_spec == spec_lookup(*v, case_key@),
                    match tag {
                        Some(w) => tag_spec == Some(*w),
                        None => tag_spec is None,
                    },
                    spec_complex_first(env@, *e, *content_key, tag_spec, *v, 0)
                        == spec_complex_first(env@, *e, *content_key, tag_spec, *v, i as int),
                decreases e.cases@.len() - i,
            {
                let label = inflect(e.cases[i].name.as_str(), e.inflection);
                let matched: bool = match tag {
                    Some(tv) => match tv {
                        JsonValue::Text(ts) => ts.eq(&label),
                        _ => false,
                    },
                    None => false,
                };
                proof {
                    assert(matched == spec_tag_matches(
                        tag_spec,
                        inflected(e.inflection, e.cases@[i as int].name@),
                    ));
                }
                if matched {
                    match complex_payload(env, &e.cases[i], content_key, v) {
                        Ok(()) => {
                            return Ok(i);
                        },
                        Err(er) => {
                            return Err(er);
                        },
                    }
                }
                i += 1;
            }
            Err(VError::UnrecognizedTag)
        },
        EnumType::Untagged => {
            let has_u = has_unit_case(&e.cases);
            if has_u {
                if let JsonValue::Text(s) = v {
                    let mut i: usize = 0;
                    while i < e.cases.len()
                        invariant
                            0 <= i <= e.cases@.len(),
                            e.enum_type is Untagged,
                            spec_has_unit_case(e.cases@),
                            v matches JsonValue::Text(sv) && sv@ == s@,
                            spec_unit_first(*e, s@, 0) == spec_unit_first(*e, s@, i as int),
                        decreases e.cases@.len() - i,
                    {
                        if case_is_unit(&e.cases[i]) {
                            let label = inflect(e.cases[i].name.as_str(), e.inflection);
                            if label.eq(s) {
                                return Ok(i);
                            }
                        }
                        i += 1;
                    }
                    return Err(VError::NoCaseMatched);
                }
            }
            if has_non_unit_case(&e.cases) {
                if !record_like(v) {
                    return Err(
                        VError::TypeMismatch { expected: ValueKind::Record, found: kind_of(v) },
                    );
                }
                let mut i: usize = 0;
                while i < e.cases.len()
                    invariant
                        0 <= i <= e.cases@.len(),
                        e.enum_type is Untagged,
                        spec_has_non_unit_case(e.cases@),
                        spec_record_like(*v),
                        !(spec_has_unit_case(e.cases@) && *v is Text),
                        spec_untagged_first(env@, *e, *v, 0) == spec_untagged_first(
                            env@,
                            *e,
                            *v,
                            i as int,
                        ),
                    decreases e.cases@.len() - i,
                {
                    if !case_is_unit(&e.cases[i]) {
                        let key = inflect(e.cases[i].name.as_str(), e.inflection);
                        let looked: Option<&JsonValue> = match v {
                            JsonValue::Obj(entries) => obj_get(entries, &key),
                            _ => None,
                        };
                        proof {
                            assert(match looked {
                                Some(w) => spec_lookup(
                                    *v,
                                    inflected(e.inflection, e.cases@[i as int].name@),
                                ) == Some(*w),
                                None => spec_lookup(
                                    *v,
                                    inflected(e.inflection, e.cases@[i as int].name@),
                                ) is None,
                            });
                        }
                        match looked {
                            Some(w) => {
                                if is_truthy(w) {
                                    proof {
                                        lemma_lookup_decreases(
                                            *v,
                                            inflected(e.inflection, e.cases@[i as int].name@),
                                        );
                                        assert(decreases_to!(*v => *w));
                                    }
                                    match untagged_payload(env, &e.cases[i], w) {
                                        Ok(()) => {
                                            return Ok(i);
                                        },
                                        Err(er) => {
                                            return Err(er);
                                        },
                                    }
                                }
                            },
                            None => {},
                        }
                    }
                    i += 1;
                }
                Err(VError::NoCaseMatched)
            } else {
                Err(VError::NoCaseMatched)
            }
        },
    }
}

} // verus!
