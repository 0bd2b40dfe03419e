//! The emitter pipeline: an ordered list of emitters run over every
//! exported entity in schema order. Each entity either fully succeeds —
//! every emitter's contribution is concatenated — or reports a generation
//! error and its output is withheld, leaving the other entities' output
//! untouched. An entity whose named references do not resolve within the
//! set is withheld the same way.

use vstd::prelude::*;
use vstd::string::StringExecFns;

use crate::references::{find_unresolved_in_entity, spec_entity_refs_resolve};
use crate::schema::{spec_has_non_unit_case, Entity, Enum, GenError};
use crate::semantics::{spec_entity_name, spec_lookup_entity};
use crate::ts_format::TSFormat;
use crate::ts_validation::{spec_struct_validation, spec_validation_prefix, struct_validation, validation_prefix};
use crate::type_script::enum_type::spec_enum_error_matches;
use crate::type_script::untagged_enum_type::spec_untagged_keys_unique;
use crate::type_script::{emit_struct_type, spec_emit_struct_type};

verus! {

/// One emitter of the pipeline: the type emitter, the validator emitter, or
/// the formatting emitter (which contributes no per-entity text; the caller
/// applies it at finalize time).
pub enum Emitter {
    TypeScript,
    TSValidation,
    Format(TSFormat),
}

/// Whether generating an enum fails: the one classification both emitters
/// share, so their two trees can never disagree about it.
pub open spec fn spec_enum_gen_fails(e: Enum) -> bool {
    ||| (e.enum_type matches crate::schema::EnumType::Complex { content_key: co, .. } && co is None
        && spec_has_non_unit_case(e.cases@))
    ||| (e.enum_type is Untagged && !spec_untagged_keys_unique(e))
}

/// Whether an emitter fails on an entity: only enum emission can fail, and
/// it fails identically for the type and the validator emitter.
pub open spec fn spec_emitter_fails(em: Emitter, ent: Entity) -> bool {
    match em {
        Emitter::Format(_) => false,
        _ => match ent {
            Entity::Struct(_) => false,
            Entity::Enum(e) => spec_enum_gen_fails(e),
        },
    }
}

/// The text an emitter contributes for an entity, when it succeeds.
pub open spec fn spec_emitter_text(em: Emitter, ent: Entity) -> Seq<char> {
    match em {
        Emitter::TypeScript => match ent {
            Entity::Struct(s) => spec_emit_struct_type(s),
            Entity::Enum(e) => match e.enum_type {
                crate::schema::EnumType::Simple => crate::type_script::enum_type::spec_emit_simple_enum_type(
                    e,
                ),
                crate::schema::EnumType::Complex { case_key, content_key } => crate::type_script::enum_type::spec_emit_complex_enum_type(
                    e,
                    case_key@,
                    crate::type_script::enum_type::spec_opt_view(content_key),
                ),
                crate::schema::EnumType::Untagged => crate::type_script::untagged_enum_type::spec_emit_untaggedd_enum_type(
                    e,
                ),
            },
        },
        Emitter::TSValidation => match ent {
            Entity::Struct(s) => spec_struct_validation(s),
            Entity::Enum(e) => match e.enum_type {
                crate::schema::EnumType::Simple => crate::ts_validation::enum_type::spec_emit_simple_enum_validation(
                    e,
                ),
                crate::schema::EnumType::Complex { case_key, content_key } => crate::ts_validation::enum_type::spec_emit_complex_enum_validation(
                    e,
                    case_key@,
                    crate::type_script::enum_type::spec_opt_view(content_key),
                ),
                crate::schema::EnumType::Untagged => crate::ts_validation::untagged::spec_emit_untagged_enum_validation(
                    e,
                ),
            },
        },
        Emitter::Format(_) => Seq::empty(),
    }
}

/// The prefix an emitter contributes once per destination.
pub open spec fn spec_emitter_prefix(em: Emitter) -> Seq<char> {
    match em {
        Emitter::TSValidation => spec_validation_prefix(),
        _ => Seq::empty(),
    }
}

/// Emits an emitter's prefix.
pub fn emitter_prefix(em: &Emitter) -> (r: String)
    ensures
        r@ == spec_emitter_prefix(*em),
{
    match em {
        Emitter::TSValidation => validation_prefix(),
        _ => String::new(),
    }
}

/// Runs one emitter over one entity.
pub fn emit_entity(em: &Emitter, ent: &Entity) -> (r: Result<String, GenError>)
    ensures
        (r is Err) <==> spec_emitter_fails(*em, *ent),
        r matches Ok(out) ==> out@ == spec_emitter_text(*em, *ent),
        r matches Err(ge) ==> (*ent matches Entity::Enum(e) && spec_enum_error_matches(e, ge)),
{
    match em {
        Emitter::TypeScript => match ent {
            Entity::Struct(s) => Ok(emit_struct_type(s)),
            Entity::Enum(e) => crate::type_script::enum_type::emit_enum_type(e),
        },
        Emitter::TSValidation => match ent {
            Entity::Struct(s) => Ok(struct_validation(s)),
            Entity::Enum(e) => crate::ts_validation::enum_type::emit_enum_type(e),
        },
        Emitter::Format(_) => Ok(String::new()),
    }
}

/// Whether some of the first `k` emitters fails on the entity.
pub open spec fn spec_entity_fails_upto(ems: Seq<Emitter>, ent: Entity, k: int) -> bool {
    exists|j: int| 0 <= j < k && spec_emitter_fails(ems[j], ent)
}

/// Whether generation of an entity fails under the pipeline: some emitter
/// rejects it, or one of its named references does not resolve within the
/// entity set.
pub open spec fn spec_entity_fails(ems: Seq<Emitter>, env: Seq<Entity>, ent: Entity) -> bool {
    !spec_entity_refs_resolve(env, ent) || spec_entity_fails_upto(ems, ent, ems.len() as int)
}

/// What the one error reported for a failing entity says: a dangling
/// reference is reported ahead of the emitters; otherwise the failing
/// enum's own error.
pub open spec fn spec_entity_error_matches(env: Seq<Entity>, ent: Entity, ge: GenError) -> bool {
    if !spec_entity_refs_resolve(env, ent) {
        ge matches GenError::UnresolvedReference { entity_name, reference } && entity_name@
            == spec_entity_name(ent) && spec_lookup_entity(env, reference@, 0) is None
    } else {
        match ent {
            Entity::Enum(e) => spec_enum_error_matches(e, ge),
            Entity::Struct(_) => false,
        }
    }
}

/// The concatenated contributions of the first `k` emitters for an entity.
pub open spec fn spec_entity_parts(ems: Seq<Emitter>, ent: Entity, k: int) -> Seq<char>
    decreases k,
{
    if k <= 0 {
        Seq::empty()
    } else {
        spec_entity_parts(ems, ent, k - 1) + spec_emitter_text(ems[k - 1], ent)
    }
}

/// The prefixes of the first `k` emitters, concatenated.
pub open spec fn spec_prefixes(ems: Seq<Emitter>, k: int) -> Seq<char>
    decreases k,
{
    if k <= 0 {
        Seq::empty()
    } else {
        spec_prefixes(ems, k - 1) + spec_emitter_prefix(ems[k - 1])
    }
}

/// The pipeline's output over the first `n` entities: the text of every
/// entity that succeeds, in schema order; a failing entity's output is
/// withheld.
pub open spec fn spec_pipeline_text(ems: Seq<Emitter>, ents: Seq<Entity>, n: int) -> Seq<char>
    decreases n,
{
    if n <= 0 {
        spec_prefixes(ems, ems.len() as int)
    } else if spec_entity_fails(ems, ents, ents[n - 1]) {
        spec_pipeline_text(ems, ents, n - 1)
    } else {
        spec_pipeline_text(ems, ents, n - 1) + spec_entity_parts(ems, ents[n - 1], ems.len() as int)
    }
}

/// How many of the first `n` entities fail under the pipeline.
pub open spec fn spec_failed_count(ems: Seq<Emitter>, ents: Seq<Entity>, n: int) -> int
    decreases n,
{
    if n <= 0 {
        0
    } else if spec_entity_fails(ems, ents, ents[n - 1]) {
        spec_failed_count(ems, ents, n - 1) + 1
    } else {
        spec_failed_count(ems, ents, n - 1)
    }
}

/// Whether `errs` is exactly the error list of the first `n` entities: one
/// error per failing entity, in schema order, each saying what that
/// entity's failure is.
pub open spec fn spec_error_list_ok(
    ems: Seq<Emitter>,
    ents: Seq<Entity>,
    n: int,
    errs: Seq<GenError>,
) -> bool
    decreases n,
{
    if n <= 0 {
        errs.len() == 0
    } else if spec_entity_fails(ems, ents, ents[n - 1]) {
        errs.len() > 0 && spec_error_list_ok(ems, ents, n - 1, errs.drop_last())
            && spec_entity_error_matches(ents, ents[n - 1], errs.last())
    } else {
        spec_error_list_ok(ems, ents, n - 1, errs)
    }
}

/// Runs the pipeline: every configured emitter over every entity in schema
/// order. Returns the concatenated output of the entities that succeeded,
/// and, per entity whose generation failed, the one error that says why.
pub fn run_pipeline(emitters: &Vec<Emitter>, entities: &Vec<Entity>) -> (r: (String, Vec<GenError>))
    ensures
        r.0@ == spec_pipeline_text(emitters@, entities@, entities@.len() as int),
        r.1@.len() == spec_failed_count(emitters@, entities@, entities@.len() as int),
        spec_error_list_ok(emitters@, entities@, entities@.len() as int, r.1@),
{
    let mut out = String::new();
    let mut k: usize = 0;
    while k < emitters.len()
        invariant
            0 <= k <= emitters@.len(),
            out@ == spec_prefixes(emitters@, k as int),
        decreases emitters@.len() - k,
    {
        let p = emitter_prefix(&emitters[k]);
        out.append(p.as_str());
        k += 1;
    }
    let mut errors: Vec<GenError> = Vec::new();
    let mut i: usize = 0;
    while i < entities.len()
        invariant
            0 <= i <= entities@.len(),
            out@ == spec_pipeline_text(emitters@, entities@, i as int),
            errors@.len() == spec_failed_count(emitters@, entities@, i as int),
            spec_error_list_ok(emitters@, entities@, i as int, errors@),
        decreases entities@.len() - i,
    {
        match find_unresolved_in_entity(entities, &entities[i]) {
            Some(reference) => {
                let entity_name = match &entities[i] {
                    Entity::Struct(s) => s.name.clone(),
                    Entity::Enum(e) => e.name.clone(),
                };
                let ge = GenError::UnresolvedReference { entity_name, reference };
                let ghost gerr = ge;
                let ghost prev = errors@;
                proof {
                    assert(spec_entity_error_matches(entities@, entities@[i as int], gerr));
                }
                errors.push(ge);
                proof {
                    assert(errors@.drop_last() =~= prev);
                    assert(errors@.last() == gerr);
                }
            },
            None => {
                let mut part = String::new();
                let mut failure: Option<GenError> = None;
                let mut k: usize = 0;
                while k < emitters.len()
                    invariant
                        0 <= k <= emitters@.len(),
                        0 <= i < entities@.len(),
                        spec_entity_refs_resolve(entities@, entities@[i as int]),
                        (failure is Some) == spec_entity_fails_upto(
                            emitters@,
                            entities@[i as int],
                            k as int,
                        ),
                        failure matches Some(ge) ==> spec_entity_error_matches(
                            entities@,
                            entities@[i as int],
                            ge,
                        ),
                        failure is None ==> part@ == spec_entity_parts(
                            emitters@,
                            entities@[i as int],
                            k as int,
                        ),
                    decreases emitters@.len() - k,
                {
                    if failure.is_none() {
                        match emit_entity(&emitters[k], &entities[i]) {
                            Ok(text) => {
                                part.append(text.as_str());
                            },
                            Err(ge) => {
                                failure = Some(ge);
                            },
                        }
                    }
                    proof {
                        assert(spec_entity_fails_upto(emitters@, entities@[i as int], k + 1) == (
                        spec_entity_fails_upto(emitters@, entities@[i as int], k as int)
                            || spec_emitter_fails(emitters@[k as int], entities@[i as int])));
                    }
                    k += 1;
                }
                match failure {
                    Some(ge) => {
                        let ghost gerr = ge;
                        let ghost prev = errors@;
                        errors.push(ge);
                        proof {
                            assert(errors@.drop_last() =~= prev);
                            assert(errors@.last() == gerr);
                        }
                    },
                    None => {
                        out.append(part.as_str());
                    },
                }
            },
        }
        i += 1;
    }
    (out, errors)
}

} // verus!
