//! The validator emitter for untagged enums. String inputs short-circuit
//! through the unit literals; record inputs are attributed structurally by
//! testing each payload-bearing case's wrapper key in declaration order,
//! the first match winning.

use vstd::prelude::*;
use vstd::string::StringExecFns;

use crate::inflect::{inflect, Inflection};
use crate::schema::{case_is_unit, spec_is_unit, Enum, EnumCase, GenError, TypeFieldsDefinition};
use crate::ts_validation::validation::{
    named_field_validations, spec_named_field_validations, spec_tuple_validation,
    spec_type_validation, tuple_validation, type_validation,
};
use crate::ts_validation::{spec_validation_namespace, validation_namespace};
use crate::type_script::untagged_enum_type::{
    find_duplicate_wrapper_key, spec_has_non_unit_upto, spec_has_unit_upto,
    spec_untagged_keys_unique, spec_wrapper_key,
};

verus! {

/// One unit case's test in an untagged validator: exact equality against
/// the case's inflected literal.
pub open spec fn spec_unit_case_validation(case_name: Seq<char>, target_name: Seq<char>) -> Seq<
    char,
> {
    "if (input === '"@ + case_name + "') {\nreturn input as "@ + target_name + ";\n}\n"@
}

/// Emits one unit case's test: exact equality against the case's literal.
pub fn unit_case_validation(case_name: &str, target_name: &str) -> (r: String)
    ensures
        r@ == spec_unit_case_validation(case_name@, target_name@),
{
    let mut out = String::new();
    out.append("if (input === '");
    out.append(case_name);
    out.append("') {\nreturn input as ");
    out.append(target_name);
    out.append(";\n}\n");
    proof {
        assert(out@ =~= spec_unit_case_validation(case_name@, target_name@));
    }
    out
}

/// The body of one payload-bearing case's validation, once its wrapper key
/// matched: an unwrapped single-member tuple validates the member in place;
/// wider tuples and record payloads delegate to the case's own named
/// validator.
pub open spec fn spec_union_case_body(c: EnumCase, parent: Seq<char>, inf: Inflection) -> Seq<
    char,
> {
    let key = spec_wrapper_key(inf, c);
    match c.type_ {
        TypeFieldsDefinition::Unit => Seq::empty(),
        TypeFieldsDefinition::Tuple(ms) => if ms@.len() == 1 {
            spec_type_validation("input."@ + key, ms@[0]) + "return input as "@ + parent + ";\n"@
        } else {
            "return { "@ + key + ": "@ + (parent + "Case"@ + c.name@) + ".validate(input."@ + key
                + ") };\n"@
        },
        TypeFieldsDefinition::Named(_) => "return { "@ + key + ": "@ + (parent + "Case"@
            + c.name@) + ".validate(input."@ + key + ") };\n"@,
    }
}

/// One payload-bearing case's arm: a truthiness test of the wrapper key,
/// guarding the case's validation.
pub open spec fn spec_union_case_validation(c: EnumCase, parent: Seq<char>, inf: Inflection) -> Seq<
    char,
> {
    "if (input."@ + spec_wrapper_key(inf, c) + ") {\n"@ + spec_union_case_body(c, parent, inf)
        + "}\n"@
}

/// Emits one payload-bearing case's arm of an untagged validator.
pub fn union_case_validation(case: &EnumCase, parent_name: &str, inflection: Inflection) -> (r:
    String)
    requires
        !spec_is_unit(*case),
    ensures
        r@ == spec_union_case_validation(*case, parent_name@, inflection),
{
    let key = inflect(case.name.as_str(), inflection);
    let mut body = String::new();
    match &case.type_ {
        TypeFieldsDefinition::Unit => {},
        TypeFieldsDefinition::Tuple(ms) => {
            if ms.len() == 1 {
                let mut path = "input.".to_string();
                path.append(key.as_str());
                let tv = type_validation(path.as_str(), &ms[0]);
                body.append(tv.as_str());
                body.append("return input as ");
                body.append(parent_name);
                body.append(";\n");
            } else {
                body.append("return { ");
                body.append(key.as_str());
                body.append(": ");
                body.append(parent_name);
                body.append("Case");
                body.append(case.name.as_str());
                body.append(".validate(input.");
                body.append(key.as_str());
                body.append(") };\n");
            }
        },
        TypeFieldsDefinition::Named(_) => {
            body.append("return { ");
            body.append(key.as_str());
            body.append(": ");
            body.append(parent_name);
            body.append("Case");
            body.append(case.name.as_str());
            body.append(".validate(input.");
            body.append(key.as_str());
            body.append(") };\n");
        },
    }
    proof {
        assert(body@ =~= spec_union_case_body(*case, parent_name@, inflection));
    }
    let mut out = String::new();
    out.append("if (input.");
    out.append(key.as_str());
    out.append(") {\n");
    out.append(body.as_str());
    out.append("}\n");
    proof {
        assert(out@ =~= spec_union_case_validation(*case, parent_name@, inflection));
    }
    out
}

/// A payload-bearing case's standalone named validator; elided (empty) for
/// an unwrapped single-member tuple, whose validation happens in place.
pub open spec fn spec_emit_case_type(c: EnumCase, parent: Seq<char>) -> Seq<char> {
    let ctn = parent + "Case"@ + c.name@;
    match c.type_ {
        TypeFieldsDefinition::Unit => Seq::empty(),
        TypeFieldsDefinition::Tuple(ms) => if ms@.len() == 1 {
            Seq::empty()
        } else {
            spec_validation_namespace(
                ctn,
                spec_tuple_validation("input"@, ms@) + "return input as "@ + ctn + ";"@,
            )
        },
        TypeFieldsDefinition::Named(fs) => spec_validation_namespace(
            ctn,
            "if (!isRecord(input)) {\nthrow new Error(`Error parsing "@ + ctn
                + ": expected: Record, found: ${typeof input}`);\n}\n"@
                + spec_named_field_validations("input"@, fs@, fs@.len() as int)
                + "return input as "@ + ctn + ";"@,
        ),
    }
}

/// Emits a payload-bearing case's standalone named validator.
pub fn emit_case_type(case: &EnumCase, parent_name: &str) -> (r: String)
    requires
        !spec_is_unit(*case),
    ensures
        r@ == spec_emit_case_type(*case, parent_name@),
{
    let mut ctn = parent_name.to_string();
    ctn.append("Case");
    ctn.append(case.name.as_str());
    proof {
        assert(ctn@ =~= parent_name@ + "Case"@ + case.name@);
    }
    match &case.type_ {
        TypeFieldsDefinition::Unit => String::new(),
        TypeFieldsDefinition::Tuple(ms) => {
            if ms.len() == 1 {
                String::new()
            } else {
                let tv = tuple_validation("input", ms);
                let mut body = String::new();
                body.append(tv.as_str());
                body.append("return input as ");
                body.append(ctn.as_str());
                body.append(";");
                let r = validation_namespace(ctn.as_str(), body.as_str());
                proof {
                    assert(body@ =~= spec_tuple_validation("input"@, ms@) + "return input as "@
                        + ctn@ + ";"@);
                    assert(r@ =~= spec_emit_case_type(*case, parent_name@));
                }
                r
            }
        },
        TypeFieldsDefinition::Named(fs) => {
            let fields = named_field_validations("input", fs);
            let mut body = String::new();
            body.append("if (!isRecord(input)) {\nthrow new Error(`Error parsing ");
            body.append(ctn.as_str());
            body.append(": expected: Record, found: ${typeof input}`);\n}\n");
            body.append(fields.as_str());
            body.append("return input as ");
            body.append(ctn.as_str());
            body.append(";");
            let r = validation_namespace(ctn.as_str(), body.as_str());
            proof {
                assert(body@ =~= "if (!isRecord(input)) {\nthrow new Error(`Error parsing "@
                    + ctn@ + ": expected: Record, found: ${typeof input}`);\n}\n"@
                    + spec_named_field_validations("input"@, fs@, fs@.len() as int)
                    + "return input as "@ + ctn@ + ";"@);
                assert(r@ =~= spec_emit_case_type(*case, parent_name@));
            }
            r
        },
    }
}

/// The unit case tests among the first `n` cases, joined with `"\n"`.
pub open spec fn spec_unit_validations_join(e: Enum, n: int) -> Seq<char>
    decreases n,
{
    if n <= 0 {
        Seq::empty()
    } else if !spec_is_unit(e.cases@[n - 1]) {
        spec_unit_validations_join(e, n - 1)
    } else if !spec_has_unit_upto(e.cases@, n - 1) {
        spec_unit_case_validation(spec_wrapper_key(e.inflection, e.cases@[n - 1]), e.name@)
    } else {
        spec_unit_validations_join(e, n - 1) + "\n"@ + spec_unit_case_validation(
            spec_wrapper_key(e.inflection, e.cases@[n - 1]),
            e.name@,
        )
    }
}

/// The payload-bearing case arms among the first `n` cases, joined with
/// `"\n"`.
pub open spec fn spec_union_validations_join(e: Enum, n: int) -> Seq<char>
    decreases n,
{
    if n <= 0 {
        Seq::empty()
    } else if spec_is_unit(e.cases@[n - 1]) {
        spec_union_validations_join(e, n - 1)
    } else if !spec_has_non_unit_upto(e.cases@, n - 1) {
        spec_union_case_validation(e.cases@[n - 1], e.name@, e.inflection)
    } else {
        spec_union_validations_join(e, n - 1) + "\n"@ + spec_union_case_validation(
            e.cases@[n - 1],
            e.name@,
            e.inflection,
        )
    }
}

/// The standalone case validators among the first `n` cases, joined with
/// `"\n"`.
pub open spec fn spec_case_types_join(e: Enum, n: int) -> Seq<char>
    decreases n,
{
    if n <= 0 {
        Seq::empty()
    } else if spec_is_unit(e.cases@[n - 1]) {
        spec_case_types_join(e, n - 1)
    } else if !spec_has_non_unit_upto(e.cases@, n - 1) {
        spec_emit_case_type(e.cases@[n - 1], e.name@)
    } else {
        spec_case_types_join(e, n - 1) + "\n"@ + spec_emit_case_type(e.cases@[n - 1], e.name@)
    }
}

/// The block testing a string input against every unit literal, ending in
/// the no-unit-case-matched failure; empty when the enum has no unit case.
pub open spec fn spec_unit_block(e: Enum) -> Seq<char> {
    let n = e.cases@.len() as int;
    if !spec_has_unit_upto(e.cases@, n) {
        Seq::empty()
    } else {
        "if ('string' === typeof input) {\n"@ + spec_unit_validations_join(e, n)
            + "throw new Error(`Error validating "@ + e.name@
            + ": none of the unit cases were matched`);\n}\n"@
    }
}

/// The block testing a record input against every wrapper key in
/// declaration order; empty when the enum has no payload-bearing case.
pub open spec fn spec_union_block(e: Enum) -> Seq<char> {
    let n = e.cases@.len() as int;
    if !spec_has_non_unit_upto(e.cases@, n) {
        Seq::empty()
    } else {
        "if (!isRecord(input)) {\nthrow new Error(`Error parsing "@ + e.name@
            + ": expected: Record, found: ${typeof input}`);\n}\n"@ + spec_union_validations_join(
            e,
            n,
        )
    }
}

/// The emitted validator of an untagged enum: the standalone case
/// validators, then the enum's namespace whose body short-circuits unit
/// literals, attributes records by wrapper key in declaration order, and
/// otherwise fails with no-case-matched.
pub open spec fn spec_emit_untagged_enum_validation(e: Enum) -> Seq<char> {
    spec_case_types_join(e, e.cases@.len() as int) + "\n"@ + spec_validation_namespace(
        e.name@,
        spec_unit_block(e) + spec_union_block(e) + "throw new Error(`Error validating "@ + e.name@
            + ": none of the union cases were matched`);"@,
    )
}

/// Emits the validator of an untagged enum, or reports the schema error
/// when two payload-bearing cases share a wrapper key.
pub fn emit_untagged_enum_type(e: &Enum) -> (r: Result<String, GenError>)
    ensures
        (r is Err) <==> !spec_untagged_keys_unique(*e),
        r matches Err(ge) ==> (ge matches GenError::DuplicateWrapperKey { enum_name, key }
            && enum_name@ == e.name@ && exists|i: int, j: int|
            0 <= i < j < e.cases@.len() && !spec_is_unit(e.cases@[i]) && !spec_is_unit(
                e.cases@[j],
            ) && spec_wrapper_key(e.inflection, e.cases@[i]) == spec_wrapper_key(
                e.inflection,
                e.cases@[j],
            ) && key@ == spec_wrapper_key(e.inflection, e.cases@[i])),
        r matches Ok(out) ==> out@ == spec_emit_untagged_enum_validation(*e),
{
    match find_duplicate_wrapper_key(e) {
        Some(key) => Err(GenError::DuplicateWrapperKey { enum_name: e.name.clone(), key }),
        None => {
            let n = e.cases.len();
            let ghost ge = *e;

            let mut units = String::new();
            let mut has_u = false;
            let mut i: usize = 0;
            while i < n
                invariant
                    0 <= i <= n,
                    n == ge.cases@.len(),
                    ge == *e,
                    has_u == spec_has_unit_upto(ge.cases@, i as int),
                    units@ == spec_unit_validations_join(ge, i as int),
                    !has_u ==> units@ == Seq::<char>::empty(),
                decreases n - i,
            {
                if case_is_unit(&e.cases[i]) {
                    if has_u {
                        units.append("\n");
                    }
                    let label = inflect(e.cases[i].name.as_str(), e.inflection);
                    let part = unit_case_validation(label.as_str(), e.name.as_str());
                    units.append(part.as_str());
                    has_u = true;
                    proof {
                        assert(units@ =~= spec_unit_validations_join(ge, i + 1));
                    }
                }
                i += 1;
            }

            let mut unions = String::new();
            let mut has_m = false;
            let mut i: usize = 0;
            while i < n
                invariant
                    0 <= i <= n,
                    n == ge.cases@.len(),
                    ge == *e,
                    has_m == spec_has_non_unit_upto(ge.cases@, i as int),
                    unions@ == spec_union_validations_join(ge, i as int),
                    !has_m ==> unions@ == Seq::<char>::empty(),
                decreases n - i,
            {
                if !case_is_unit(&e.cases[i]) {
                    if has_m {
                        unions.append("\n");
                    }
                    let part = union_case_validation(&e.cases[i], e.name.as_str(), e.inflection);
                    unions.append(part.as_str());
                    has_m = true;
                    proof {
                        assert(unions@ =~= spec_union_validations_join(ge, i + 1));
                    }
                }
                i += 1;
            }

            let mut case_types = String::new();
            let mut has_ct = false;
            let mut i: usize = 0;
            while i < n
                invariant
                    0 <= i <= n,
                    n == ge.cases@.len(),
                    ge == *e,
                    has_ct == spec_has_non_unit_upto(ge.cases@, i as int),
                    case_types@ == spec_case_types_join(ge, i as int),
                    !has_ct ==> case_types@ == Seq::<char>::empty(),
                decreases n - i,
            {
                if !case_is_unit(&e.cases[i]) {
                    if has_ct {
                        case_types.append("\n");
                    }
                    let part = emit_case_type(&e.cases[i], e.name.as_str());
                    case_types.append(part.as_str());
                    has_ct = true;
                    proof {
                        assert(case_types@ =~= spec_case_types_join(ge, i + 1));
                    }
                }
                i += 1;
            }

            let mut body = String::new();
            if has_u {
                body.append("if ('string' === typeof input) {\n");
                body.append(units.as_str());
                body.append("throw new Error(`Error validating ");
                body.append(e.name.as_str());
                body.append(": none of the unit cases were matched`);\n}\n");
            }
            proof {
                assert(body@ =~= spec_unit_block(ge));
            }
            if has_m {
                body.append("if (!isRecord(input)) {\nthrow new Error(`Error parsing ");
                body.append(e.name.as_str());
                body.append(": expected: Record, found: ${typeof input}`);\n}\n");
                body.append(unions.as_str());
            }
            body.append("throw new Error(`Error validating ");
            body.append(e.name.as_str());
            body.append(": none of the union cases were matched`);");
            proof {
                assert(body@ =~= spec_unit_block(ge) + spec_union_block(ge)
                    + "throw new Error(`Error validating "@ + ge.name@
                    + ": none of the union cases were matched`);"@);
            }
            let ns = validation_namespace(e.name.as_str(), body.as_str());
            let mut out = String::new();
            out.append(case_types.as_str());
            out.append("\n");
            out.append(ns.as_str());
            proof {
                assert(out@ =~= spec_emit_untagged_enum_validation(ge));
            }
            Ok(out)
        },
    }
}

} // verus!
