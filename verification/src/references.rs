//! Reference resolution over a schema set: every named reference in every
//! entity must point at an entity of the set. A dangling reference is a
//! schema defect reported at generation time, never deferred to the
//! generated code.

use vstd::prelude::*;

use crate::schema::{Entity, EnumCase, GenError, NamedField, Type, TypeFieldsDefinition};
use crate::semantics::spec_lookup_entity;

verus! {

/// Whether every named reference in `t` resolves in `env`.
pub open spec fn spec_type_refs_resolve(env: Seq<Entity>, t: Type) -> bool
    decreases t, 0int,
{
    match t {
        Type::Primitive(_) => true,
        Type::Named(n) => spec_lookup_entity(env, n@, 0) is Some,
        Type::Array(inner) => spec_type_refs_resolve(env, *inner),
        Type::Tuple(ms) => spec_types_refs_resolve(env, ms@, ms@.len() as int),
        Type::Optional(inner) => spec_type_refs_resolve(env, *inner),
    }
}

/// Whether every named reference in the first `n` types resolves in `env`.
pub open spec fn spec_types_refs_resolve(env: Seq<Entity>, ms: Seq<Type>, n: int) -> bool
    decreases ms, n,
        when 0 <= n <= ms.len()
{
    if n <= 0 {
        true
    } else {
        spec_types_refs_resolve(env, ms, n - 1) && spec_type_refs_resolve(env, ms[n - 1])
    }
}

/// Whether every named reference in the first `n` fields resolves in `env`.
pub open spec fn spec_fields_refs_resolve(env: Seq<Entity>, fields: Seq<NamedField>, n: int) -> bool
    decreases n,
{
    if n <= 0 {
        true
    } else {
        spec_fields_refs_resolve(env, fields, n - 1) && spec_type_refs_resolve(
            env,
            fields[n - 1].type_,
        )
    }
}

/// Whether every named reference in a case's payload resolves in `env`.
pub open spec fn spec_case_refs_resolve(env: Seq<Entity>, c: EnumCase) -> bool {
    match c.type_ {
        TypeFieldsDefinition::Unit => true,
        TypeFieldsDefinition::Tuple(ms) => spec_types_refs_resolve(env, ms@, ms@.len() as int),
        TypeFieldsDefinition::Named(fs) => spec_fields_refs_resolve(env, fs@, fs@.len() as int),
    }
}

/// Whether every named reference in the first `n` cases resolves in `env`.
pub open spec fn spec_cases_refs_resolve(env: Seq<Entity>, cases: Seq<EnumCase>, n: int) -> bool
    decreases n,
{
    if n <= 0 {
        true
    } else {
        spec_cases_refs_resolve(env, cases, n - 1) && spec_case_refs_resolve(env, cases[n - 1])
    }
}

/// Whether every named reference in an entity resolves in `env`.
pub open spec fn spec_entity_refs_resolve(env: Seq<Entity>, ent: Entity) -> bool {
    match ent {
        Entity::Struct(s) => spec_fields_refs_resolve(env, s.fields@, s.fields@.len() as int),
        Entity::Enum(e) => spec_cases_refs_resolve(env, e.cases@, e.cases@.len() as int),
    }
}

/// Whether the schema set is closed: every reference of the first `n`
/// entities resolves within the set itself.
pub open spec fn spec_env_closed(env: Seq<Entity>, n: int) -> bool
    decreases n,
{
    if n <= 0 {
        true
    } else {
        spec_env_closed(env, n - 1) && spec_entity_refs_resolve(env, env[n - 1])
    }
}

proof fn lemma_types_resolve_prefix(env: Seq<Entity>, ms: Seq<Type>, a: int, b: int)
    requires
        0 <= a <= b <= ms.len(),
        spec_types_refs_resolve(env, ms, b),
    ensures
        spec_types_refs_resolve(env, ms, a),
    decreases b - a,
{
    if a < b {
        lemma_types_resolve_prefix(env, ms, a, b - 1);
    }
}

proof fn lemma_fields_resolve_prefix(env: Seq<Entity>, fields: Seq<NamedField>, a: int, b: int)
    requires
        0 <= a <= b,
        spec_fields_refs_resolve(env, fields, b),
    ensures
        spec_fields_refs_resolve(env, fields, a),
    decreases b - a,
{
    if a < b {
        lemma_fields_resolve_prefix(env, fields, a, b - 1);
    }
}

proof fn lemma_cases_resolve_prefix(env: Seq<Entity>, cases: Seq<EnumCase>, a: int, b: int)
    requires
        0 <= a <= b,
        spec_cases_refs_resolve(env, cases, b),
    ensures
        spec_cases_refs_resolve(env, cases, a),
    decreases b - a,
{
    if a < b {
        lemma_cases_resolve_prefix(env, cases, a, b - 1);
    }
}

proof fn lemma_env_closed_prefix(env: Seq<Entity>, a: int, b: int)
    requires
        0 <= a <= b,
        spec_env_closed(env, b),
    ensures
        spec_env_closed(env, a),
    decreases b - a,
{
    if a < b {
        lemma_env_closed_prefix(env, a, b - 1);
    }
}

/// The first dangling reference in `t`, if any.
fn find_unresolved_in_type(env: &Vec<Entity>, t: &Type) -> (r: Option<String>)
    ensures
        (r is None) <==> spec_type_refs_resolve(env@, *t),
        r matches Some(n) ==> spec_lookup_entity(env@, n@, 0) is None,
    decreases *t,
{
    match t {
        Type::Primitive(_) => None,
        Type::Named(n) => match crate::semantics::lookup_entity(env, n) {
            Some(_) => None,
            None => Some(n.clone()),
        },
        Type::Array(inner) => find_unresolved_in_type(env, &**inner),
        Type::Tuple(ms) => {
            proof {
                assert(decreases_to!(*t => (*t)->Tuple_0));
                assert(decreases_to!((*t)->Tuple_0 => (*t)->Tuple_0@));
            }
            find_unresolved_in_types(env, ms)
        },
        Type::Optional(inner) => find_unresolved_in_type(env, &**inner),
    }
}

/// The first dangling reference among the member types, if any.
fn find_unresolved_in_types(env: &Vec<Entity>, ms: &Vec<Type>) -> (r: Option<String>)
    ensures
        (r is None) <==> spec_types_refs_resolve(env@, ms@, ms@.len() as int),
        r matches Some(n) ==> spec_lookup_entity(env@, n@, 0) is None,
    decreases ms@, ms@.len() as int + 1,
{
    let mut i: usize = 0;
    while i < ms.len()
        invariant
            0 <= i <= ms@.len(),
            spec_types_refs_resolve(env@, ms@, i as int),
        decreases ms@.len() - i,
    {
        proof {
            assert(decreases_to!(ms@ => ms@[i as int]));
        }
        match find_unresolved_in_type(env, &ms[i]) {
            Some(n) => {
                proof {
                    assert(!spec_types_refs_resolve(env@, ms@, i + 1));
                    if spec_types_refs_resolve(env@, ms@, ms@.len() as int) {
                        lemma_types_resolve_prefix(env@, ms@, i + 1, ms@.len() as int);
                    }
                }
                return Some(n);
            },
            None => {},
        }
        i += 1;
    }
    None
}

/// The first dangling reference among the fields, if any.
fn find_unresolved_in_fields(env: &Vec<Entity>, fields: &Vec<NamedField>) -> (r: Option<String>)
    ensures
        (r is None) <==> spec_fields_refs_resolve(env@, fields@, fields@.len() as int),
        r matches Some(n) ==> spec_lookup_entity(env@, n@, 0) is None,
{
    let mut i: usize = 0;
    while i < fields.len()
        invariant
            0 <= i <= fields@.len(),
            spec_fields_refs_resolve(env@, fields@, i as int),
        decreases fields@.len() - i,
    {
        match find_unresolved_in_type(env, &fields[i].type_) {
            Some(n) => {
                proof {
                    assert(!spec_fields_refs_resolve(env@, fields@, i + 1));
                    if spec_fields_refs_resolve(env@, fields@, fields@.len() as int) {
                        lemma_fields_resolve_prefix(env@, fields@, i + 1, fields@.len() as int);
                    }
                }
                return Some(n);
            },
            None => {},
        }
        i += 1;
    }
    None
}

/// The first dangling reference in an entity, if any.
pub(crate) fn find_unresolved_in_entity(env: &Vec<Entity>, ent: &Entity) -> (r: Option<String>)
    ensures
        (r is None) <==> spec_entity_refs_resolve(env@, *ent),
        r matches Some(n) ==> spec_lookup_entity(env@, n@, 0) is None,
{
    match ent {
        Entity::Struct(s) => find_unresolved_in_fields(env, &s.fields),
        Entity::Enum(e) => {
            let mut i: usize = 0;
            while i < e.cases.len()
                invariant
                    0 <= i <= e.cases@.len(),
                    *ent == Entity::Enum(*e),
                    spec_cases_refs_resolve(env@, e.cases@, i as int),
                decreases e.cases@.len() - i,
            {
                let found: Option<String> = match &e.cases[i].type_ {
                    TypeFieldsDefinition::Unit => None,
                    TypeFieldsDefinition::Tuple(ms) => find_unresolved_in_types(env, ms),
                    TypeFieldsDefinition::Named(fs) => find_unresolved_in_fields(env, fs),
                };
                match found {
                    Some(n) => {
                        proof {
                            assert(!spec_case_refs_resolve(env@, e.cases@[i as int]));
                            assert(!spec_cases_refs_resolve(env@, e.cases@, i + 1));
                            if spec_cases_refs_resolve(env@, e.cases@, e.cases@.len() as int) {
                                lemma_cases_resolve_prefix(
                                    env@,
                                    e.cases@,
                                    i + 1,
                                    e.cases@.len() as int,
                                );
                            }
                        }
                        return Some(n);
                    },
                    None => {},
                }
                i += 1;
            }
            None
        },
    }
}

/// Checks that the schema set is closed: every named reference of every
/// entity resolves within the set. The first dangling reference is reported
/// as the generation-time error it is.
pub fn check_references(entities: &Vec<Entity>) -> (r: Result<(), GenError>)
    ensures
        (r is Ok) <==> spec_env_closed(entities@, entities@.len() as int),
        r matches Err(ge) ==> (ge matches GenError::UnresolvedReference { entity_name, reference }
            && spec_lookup_entity(entities@, reference@, 0) is None && exists|i: int|
            0 <= i < entities@.len() && entity_name@
                == crate::semantics::spec_entity_name(#[trigger] entities@[i])
                && !spec_entity_refs_resolve(entities@, entities@[i])),
{
    let mut i: usize = 0;
    while i < entities.len()
        invariant
            0 <= i <= entities@.len(),
            spec_env_closed(entities@, i as int),
        decreases entities@.len() - i,
    {
        match find_unresolved_in_entity(entities, &entities[i]) {
            Some(n) => {
                let entity_name = match &entities[i] {
                    Entity::Struct(s) => s.name.clone(),
                    Entity::Enum(e) => e.name.clone(),
                };
                proof {
                    assert(!spec_entity_refs_resolve(entities@, entities@[i as int]));
                    assert(!spec_env_closed(entities@, i + 1));
                    if spec_env_closed(entities@, entities@.len() as int) {
                        lemma_env_closed_prefix(entities@, i + 1, entities@.len() as int);
                    }
                }
                return Err(GenError::UnresolvedReference { entity_name, reference: n });
            },
            None => {},
        }
        i += 1;
    }
    Ok(())
}

} // verus!
