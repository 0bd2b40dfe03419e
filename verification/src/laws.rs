//! The library's laws: properties relating the emitters, the inflection
//! engine and the validator semantics, stated over the same spec functions
//! that the functions' own contracts use.

use vstd::prelude::*;

use crate::inflect::inflected;
use crate::emitter::spec_enum_gen_fails;
use crate::schema::{spec_is_unit, Entity, Enum, EnumType, Type};
use crate::semantics::{
    spec_is_truthy, spec_lookup, spec_record_like, spec_simple_first, spec_untagged_first,
    spec_complex_first, spec_complex_payload, spec_tag_matches, spec_untagged_payload,
    spec_validate_enum, JsonValue, VError,
};
use crate::ts_validation::validation::spec_type_validation;
use crate::type_script::enum_type::spec_case_label;
use crate::type_script::untagged_enum_type::spec_wrapper_key;

verus! {

/// Inflection agreement: every artifact derives a case's wire form from the
/// one pure casing function, so the label in the type declarations, the
/// untagged wrapper key, and the literal the validator semantics compares
/// against are the same string for the same case.
pub proof fn lemma_inflection_agreement(e: Enum, i: int)
    requires
        0 <= i < e.cases@.len(),
    ensures
        spec_case_label(e, i) == inflected(e.inflection, e.cases@[i].name@),
        spec_wrapper_key(e.inflection, e.cases@[i]) == spec_case_label(e, i),
{
}

proof fn lemma_simple_first_hits(e: Enum, s: Seq<char>, k: int, i: int)
    requires
        0 <= i <= k < e.cases@.len(),
        inflected(e.inflection, e.cases@[k].name@) == s,
        forall|j: int|
            i <= j < k ==> inflected(e.inflection, #[trigger] e.cases@[j].name@) != s,
    ensures
        spec_simple_first(e, s, i) == Ok::<int, VError>(k),
    decreases k - i,
{
    if i < k {
        lemma_simple_first_hits(e, s, k, i + 1);
    }
}

/// Simple-enum round trip, accepting half: validating the inflected name of
/// case `k` of a simple enum whose labels are pairwise distinct succeeds
/// and is attributed to case `k`.
pub proof fn lemma_simple_round_trip(env: Seq<Entity>, e: Enum, v: JsonValue, k: int)
    requires
        e.enum_type is Simple,
        0 <= k < e.cases@.len(),
        v matches JsonValue::Text(s) && s@ == inflected(e.inflection, e.cases@[k].name@),
        forall|i: int, j: int|
            0 <= i < j < e.cases@.len() ==> inflected(e.inflection, #[trigger] e.cases@[i].name@)
                != inflected(e.inflection, #[trigger] e.cases@[j].name@),
    ensures
        spec_validate_enum(env, e, v) == Ok::<int, VError>(k),
{
    let s = v->Text_0;
    assert(forall|j: int|
        0 <= j < k ==> inflected(e.inflection, #[trigger] e.cases@[j].name@) != s@);
    lemma_simple_first_hits(e, s@, k, 0);
}

proof fn lemma_simple_first_misses(e: Enum, s: Seq<char>, i: int)
    requires
        0 <= i,
        forall|j: int|
            0 <= j < e.cases@.len() ==> inflected(e.inflection, #[trigger] e.cases@[j].name@)
                != s,
    ensures
        spec_simple_first(e, s, i) == Err::<int, VError>(VError::NoCaseMatched),
    decreases e.cases@.len() - i,
{
    if i < e.cases@.len() {
        lemma_simple_first_misses(e, s, i + 1);
    }
}

/// Simple-enum round trip, rejecting half: validating a string outside the
/// enum's label set fails with the no-case-matched error.
pub proof fn lemma_simple_rejects(env: Seq<Entity>, e: Enum, v: JsonValue)
    requires
        e.enum_type is Simple,
        v matches JsonValue::Text(s) && (forall|j: int|
            0 <= j < e.cases@.len() ==> inflected(e.inflection, #[trigger] e.cases@[j].name@)
                != s@),
    ensures
        spec_validate_enum(env, e, v) == Err::<int, VError>(VError::NoCaseMatched),
{
    lemma_simple_first_misses(e, v->Text_0@, 0);
}

proof fn lemma_untagged_first_reaches(env: Seq<Entity>, e: Enum, v: JsonValue, k: int, i: int)
    requires
        0 <= i <= k < e.cases@.len(),
        !spec_is_unit(e.cases@[k]),
        spec_lookup(v, spec_wrapper_key(e.inflection, e.cases@[k])) matches Some(w)
            && spec_is_truthy(w),
        forall|j: int|
            0 <= j < k && !spec_is_unit(#[trigger] e.cases@[j]) ==> !(spec_lookup(
                v,
                spec_wrapper_key(e.inflection, e.cases@[j]),
            ) matches Some(u) && spec_is_truthy(u)),
    ensures
        spec_untagged_first(env, e, v, i) == spec_untagged_first(env, e, v, k),
    decreases k - i,
{
    if i < k {
        lemma_untagged_first_reaches(env, e, v, k, i + 1);
    }
}

/// Untagged disambiguation order: on a record input, the first declared
/// payload-bearing case whose wrapper key holds a truthy value decides the
/// outcome; earlier payload-bearing cases whose keys are absent or falsy do
/// not interfere, and which wrapper key is present selects which case's
/// validation runs.
pub proof fn lemma_untagged_first_match(env: Seq<Entity>, e: Enum, v: JsonValue, k: int)
    requires
        e.enum_type is Untagged,
        spec_record_like(v),
        0 <= k < e.cases@.len(),
        !spec_is_unit(e.cases@[k]),
        spec_lookup(v, spec_wrapper_key(e.inflection, e.cases@[k])) matches Some(w)
            && spec_is_truthy(w),
        forall|j: int|
            0 <= j < k && !spec_is_unit(#[trigger] e.cases@[j]) ==> !(spec_lookup(
                v,
                spec_wrapper_key(e.inflection, e.cases@[j]),
            ) matches Some(u) && spec_is_truthy(u)),
    ensures
        spec_validate_enum(env, e, v) == (match spec_untagged_payload(
            env,
            e.cases@[k],
            spec_lookup(v, spec_wrapper_key(e.inflection, e.cases@[k]))->0,
        ) {
            Ok(()) => Ok::<int, VError>(k),
            Err(er) => Err::<int, VError>(er),
        }),
{
    assert(!(v is Text));
    assert(crate::schema::spec_has_non_unit_case(e.cases@));
    lemma_untagged_first_reaches(env, e, v, k, 0);
}

proof fn lemma_complex_first_reaches(
    env: Seq<Entity>,
    e: Enum,
    co: Option<String>,
    tag: Option<JsonValue>,
    v: JsonValue,
    k: int,
    i: int,
)
    requires
        0 <= i <= k < e.cases@.len(),
        forall|j: int|
            0 <= j < k ==> !spec_tag_matches(
                tag,
                inflected(e.inflection, #[trigger] e.cases@[j].name@),
            ),
    ensures
        spec_complex_first(env, e, co, tag, v, i) == spec_complex_first(env, e, co, tag, v, k),
    decreases k - i,
{
    if i < k {
        lemma_complex_first_reaches(env, e, co, tag, v, k, i + 1);
    }
}

/// Complex-enum tag dispatch: on a record input, the cases are tested
/// sequentially in declaration order against the tag under the case key;
/// the first case whose label equals the tag decides, and its payload
/// validation alone determines the outcome.
pub proof fn lemma_complex_tag_dispatch(env: Seq<Entity>, e: Enum, v: JsonValue, k: int)
    requires
        e.enum_type is Complex,
        spec_record_like(v),
        0 <= k < e.cases@.len(),
        spec_tag_matches(
            spec_lookup(v, e.enum_type->Complex_case_key@),
            inflected(e.inflection, e.cases@[k].name@),
        ),
        forall|j: int|
            0 <= j < k ==> !spec_tag_matches(
                spec_lookup(v, e.enum_type->Complex_case_key@),
                inflected(e.inflection, #[trigger] e.cases@[j].name@),
            ),
    ensures
        spec_validate_enum(env, e, v) == (match spec_complex_payload(
            env,
            e.cases@[k],
            e.enum_type->Complex_content_key,
            v,
        ) {
            Ok(()) => Ok::<int, VError>(k),
            Err(er) => Err::<int, VError>(er),
        }),
{
    lemma_complex_first_reaches(
        env,
        e,
        e.enum_type->Complex_content_key,
        spec_lookup(v, e.enum_type->Complex_case_key@),
        v,
        k,
        0,
    );
}

/// Tuple arity enforcement: a list input whose length differs from the
/// tuple's member count never validates; the failure names both lengths.
pub proof fn lemma_tuple_arity(env: Seq<Entity>, t: Type, v: JsonValue)
    requires
        t is Tuple,
        v matches JsonValue::Arr(elems) && elems@.len() != t->Tuple_0@.len(),
    ensures
        crate::semantics::spec_validate_type(env, t, v) == Err::<(), VError>(
            VError::LengthMismatch {
                expected: t->Tuple_0@.len() as usize,
                found: v->Arr_0@.len() as usize,
            },
        ),
{
}

/// Generation-time rejection, tagged half: a complex enum with a
/// payload-bearing case and no content key fails generation — the shared
/// failure classification holds of it, so both emitters reject the entity
/// and the pipeline withholds its output instead of silently proceeding.
pub proof fn lemma_missing_content_key_rejected(e: Enum, i: int)
    requires
        e.enum_type matches EnumType::Complex { content_key, .. } && content_key is None,
        0 <= i < e.cases@.len(),
        !spec_is_unit(e.cases@[i]),
    ensures
        spec_enum_gen_fails(e),
{
    assert(crate::schema::spec_has_non_unit_case(e.cases@));
}

/// Generation-time rejection, untagged half: an untagged enum with two
/// payload-bearing cases whose names inflect to one wrapper key fails
/// generation.
pub proof fn lemma_duplicate_wrapper_key_rejected(e: Enum, i: int, j: int)
    requires
        e.enum_type is Untagged,
        0 <= i < j < e.cases@.len(),
        !spec_is_unit(e.cases@[i]),
        !spec_is_unit(e.cases@[j]),
        spec_wrapper_key(e.inflection, e.cases@[i]) == spec_wrapper_key(e.inflection, e.cases@[j]),
    ensures
        spec_enum_gen_fails(e),
{
    assert(!crate::type_script::untagged_enum_type::spec_untagged_keys_unique(e));
}

/// Nested reference linearity: the validator fragment emitted for a named
/// reference delegates to the referenced entity's own validator, so its
/// size depends only on the reference's and the variable's names — never on
/// the referenced entity's definition, and so not on nesting depth.
pub proof fn lemma_named_reference_delegates(path: Seq<char>, n: String)
    ensures
        spec_type_validation(path, Type::Named(n)) == n@ + ".validate("@ + path + ");\n"@,
        spec_type_validation(path, Type::Named(n)).len() == n@.len() + path.len() + 13,
{
    reveal_strlit(".validate(");
    reveal_strlit(");\n");
}

} // verus!
