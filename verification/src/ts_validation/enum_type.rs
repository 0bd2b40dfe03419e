//! The validator emitter for enums: dispatches on the enum's tagging
//! convention. A simple enum validates by membership in its literal set; a
//! complex (tagged) enum reads the case key and tests it sequentially
//! against each case's label.

use vstd::prelude::*;
use vstd::string::StringExecFns;

use crate::inflect::inflect;
use crate::schema::{
    case_is_unit, spec_has_non_unit_case, spec_is_unit, Enum, EnumCase, EnumType, GenError,
    TypeFieldsDefinition,
};
use crate::ts_validation::untagged::emit_untagged_enum_type;
use crate::ts_validation::untagged::spec_emit_untagged_enum_validation;
use crate::ts_validation::validation::{
    named_field_validations, spec_named_field_validations, spec_tuple_validation,
    spec_type_validation, tuple_validation, type_validation,
};
use crate::ts_validation::{spec_validation_namespace, validation_namespace};
use crate::type_script::enum_type::{spec_case_label, spec_opt_view};
use crate::type_script::untagged_enum_type::spec_untagged_keys_unique;

verus! {

/// The emitted validator of a simple enum: membership of the input in the
/// enum's literal set.
pub open spec fn spec_emit_simple_enum_validation(e: Enum) -> Seq<char> {
    spec_validation_namespace(
        e.name@,
        "\nif(Object.values("@ + e.name@ + ").includes(input as "@ + e.name@
            + ")) {\n    return input as "@ + e.name@
            + ";\n}\nthrow new Error(`Error parsing "@ + e.name@
            + ": value does not conform: ${JSON.stringify(input)}`)\n"@,
    )
}

/// Emits the validator of a simple enum.
pub fn emit_simple_enum_type(e: &Enum) -> (r: String)
    ensures
        r@ == spec_emit_simple_enum_validation(*e),
{
    let mut body = String::new();
    body.append("\nif(Object.values(");
    body.append(e.name.as_str());
    body.append(").includes(input as ");
    body.append(e.name.as_str());
    body.append(")) {\n    return input as ");
    body.append(e.name.as_str());
    body.append(";\n}\nthrow new Error(`Error parsing ");
    body.append(e.name.as_str());
    body.append(": value does not conform: ${JSON.stringify(input)}`)\n");
    let r = validation_namespace(e.name.as_str(), body.as_str());
    proof {
        assert(body@ =~= "\nif(Object.values("@ + e.name@ + ").includes(input as "@ + e.name@
            + ")) {\n    return input as "@ + e.name@
            + ";\n}\nthrow new Error(`Error parsing "@ + e.name@
            + ": value does not conform: ${JSON.stringify(input)}`)\n"@);
    }
    r
}

/// The payload validation of one case in a complex enum's validator: none
/// for a unit case; the sole member's validation for an unwrapped tuple;
/// the tuple rule for a wider tuple; a record check plus per-field
/// validations for a record payload. All payloads live under the content
/// key.
pub open spec fn spec_complex_payload_validation(
    c: EnumCase,
    co: Option<Seq<char>>,
    parent: Seq<char>,
) -> Seq<char> {
    match c.type_ {
        TypeFieldsDefinition::Unit => Seq::empty(),
        TypeFieldsDefinition::Tuple(ms) => if ms@.len() == 1 {
            spec_type_validation("input."@ + co->0, ms@[0])
        } else {
            spec_tuple_validation("input."@ + co->0, ms@)
        },
        TypeFieldsDefinition::Named(fs) => "if (!isRecord("@ + ("input."@ + co->0)
            + ")) {\nthrow new Error(`Error parsing "@ + (parent + "Case"@ + c.name@)
            + ": expected: Record, found: ${typeof "@ + ("input."@ + co->0) + "}`);\n}\n"@
            + spec_named_field_validations("input."@ + co->0, fs@, fs@.len() as int),
    }
}

/// One case's arm in a complex enum's validator: an exact tag test against
/// the case's label, the payload validation, and the successful return.
pub open spec fn spec_complex_case_validation(
    e: Enum,
    ck: Seq<char>,
    co: Option<Seq<char>>,
    i: int,
) -> Seq<char> {
    "if (input."@ + ck + " === \""@ + spec_case_label(e, i) + "\") {\n"@
        + spec_complex_payload_validation(e.cases@[i], co, e.name@) + "return input as "@ + e.name@
        + ";\n}\n"@
}

/// The arms of the first `n` cases, in declaration order.
pub open spec fn spec_complex_case_validations(
    e: Enum,
    ck: Seq<char>,
    co: Option<Seq<char>>,
    n: int,
) -> Seq<char>
    decreases n,
{
    if n <= 0 {
        Seq::empty()
    } else {
        spec_complex_case_validations(e, ck, co, n - 1) + spec_complex_case_validation(
            e,
            ck,
            co,
            n - 1,
        )
    }
}

/// The emitted validator of a complex enum: a record check, the sequential
/// tag dispatch over all cases, and the unrecognized-tag failure.
pub open spec fn spec_emit_complex_enum_validation(
    e: Enum,
    ck: Seq<char>,
    co: Option<Seq<char>>,
) -> Seq<char> {
    spec_validation_namespace(
        e.name@,
        "if (!isRecord(input)) {\nthrow new Error(`Error parsing "@ + e.name@
            + ": expected: Record, found: ${typeof input}`);\n}\n"@
            + spec_complex_case_validations(e, ck, co, e.cases@.len() as int)
            + "throw new Error(`Error validating "@ + e.name@ + ": unrecognized tag: ${input."@
            + ck + "}`);"@,
    )
}

fn complex_payload_validation(case: &EnumCase, content_key: &Option<String>, parent: &str) -> (r:
    String)
    requires
        content_key is None ==> spec_is_unit(*case),
    ensures
        r@ == spec_complex_payload_validation(*case, spec_opt_view(*content_key), parent@),
{
    match &case.type_ {
        TypeFieldsDefinition::Unit => String::new(),
        TypeFieldsDefinition::Tuple(ms) => {
            let mut path = "input.".to_string();
            match content_key {
                Some(c) => path.append(c.as_str()),
                None => {
                    proof {
                        assert(false);
                    }
                },
            }
            if ms.len() == 1 {
                let r = type_validation(path.as_str(), &ms[0]);
                proof {
                    assert(r@ =~= spec_complex_payload_validation(
                        *case,
                        spec_opt_view(*content_key),
                        parent@,
                    ));
                }
                r
            } else {
                let r = tuple_validation(path.as_str(), ms);
                proof {
                    assert(r@ =~= spec_complex_payload_validation(
                        *case,
                        spec_opt_view(*content_key),
                        parent@,
                    ));
                }
                r
            }
        },
        TypeFieldsDefinition::Named(fs) => {
            let mut path = "input.".to_string();
            match content_key {
                Some(c) => path.append(c.as_str()),
                None => {
                    proof {
                        assert(false);
                    }
                },
            }
            let fields = named_field_validations(path.as_str(), fs);
            let mut out = String::new();
            out.append("if (!isRecord(");
            out.append(path.as_str());
            out.append(")) {\nthrow new Error(`Error parsing ");
            out.append(parent);
            out.append("Case");
            out.append(case.name.as_str());
            out.append(": expected: Record, found: ${typeof ");
            out.append(path.as_str());
            out.append("}`);\n}\n");
            out.append(fields.as_str());
            proof {
                assert(content_key is Some);
                assert(path@ =~= "input."@ + spec_opt_view(*content_key)->0);
                assert(out@ =~= spec_complex_payload_validation(
                    *case,
                    spec_opt_view(*content_key),
                    parent@,
                ));
            }
            out
        },
    }
}

/// Emits the validator of a complex (tagged) enum, or reports the schema
/// error when a payload-bearing case exists and no content key was given.
pub fn emit_complex_enum_type(e: &Enum, case_key: &String, content_key: &Option<String>) -> (r:
    Result<String, GenError>)
    ensures
        (r is Err) <==> (content_key is None && spec_has_non_unit_case(e.cases@)),
        r matches Err(ge) ==> (ge matches GenError::MissingContentKey { enum_name, case_name }
            && enum_name@ == e.name@ && exists|i: int|
            0 <= i < e.cases@.len() && !spec_is_unit(e.cases@[i]) && case_name@
                == e.cases@[i].name@ && (forall|j: int| 0 <= j < i ==> spec_is_unit(e.cases@[j]))),
        r matches Ok(out) ==> out@ == spec_emit_complex_enum_validation(
            *e,
            case_key@,
            spec_opt_view(*content_key),
        ),
{
    if content_key.is_none() {
        let mut i: usize = 0;
        while i < e.cases.len()
            invariant
                0 <= i <= e.cases@.len(),
                content_key is None,
                forall|j: int| 0 <= j < i ==> spec_is_unit(e.cases@[j]),
            decreases e.cases@.len() - i,
        {
            if !case_is_unit(&e.cases[i]) {
                proof {
                    assert(!spec_is_unit(e.cases@[i as int]));
                    assert(spec_has_non_unit_case(e.cases@));
                }
                return Err(
                    GenError::MissingContentKey {
                        enum_name: e.name.clone(),
                        case_name: e.cases[i].name.clone(),
                    },
                );
            }
            i += 1;
        }
    }
    let mut arms = String::new();
    let mut i: usize = 0;
    while i < e.cases.len()
        invariant
            0 <= i <= e.cases@.len(),
            content_key is None ==> !spec_has_non_unit_case(e.cases@),
            arms@ == spec_complex_case_validations(
                *e,
                case_key@,
                spec_opt_view(*content_key),
                i as int,
            ),
        decreases e.cases@.len() - i,
    {
        let label = inflect(e.cases[i].name.as_str(), e.inflection);
        arms.append("if (input.");
        arms.append(case_key.as_str());
        arms.append(" === \"");
        arms.append(label.as_str());
        arms.append("\") {\n");
        let payload = complex_payload_validation(&e.cases[i], content_key, e.name.as_str());
        arms.append(payload.as_str());
        arms.append("return input as ");
        arms.append(e.name.as_str());
        arms.append(";\n}\n");
        proof {
            assert(arms@ =~= spec_complex_case_validations(
                *e,
                case_key@,
                spec_opt_view(*content_key),
                i + 1,
            ));
        }
        i += 1;
    }
    let mut body = String::new();
    body.append("if (!isRecord(input)) {\nthrow new Error(`Error parsing ");
    body.append(e.name.as_str());
    body.append(": expected: Record, found: ${typeof input}`);\n}\n");
    body.append(arms.as_str());
    body.append("throw new Error(`Error validating ");
    body.append(e.name.as_str());
    body.append(": unrecognized tag: ${input.");
    body.append(case_key.as_str());
    body.append("}`);");
    let r = validation_namespace(e.name.as_str(), body.as_str());
    proof {
        assert(body@ =~= "if (!isRecord(input)) {\nthrow new Error(`Error parsing "@ + e.name@
            + ": expected: Record, found: ${typeof input}`);\n}\n"@
            + spec_complex_case_validations(
            *e,
            case_key@,
            spec_opt_view(*content_key),
            e.cases@.len() as int,
        ) + "throw new Error(`Error validating "@ + e.name@ + ": unrecognized tag: ${input."@
            + case_key@ + "}`);"@);
    }
    Ok(r)
}

/// Emits the validator of an enum, dispatching on its tagging convention;
/// the representation fully determines the emission.
pub fn emit_enum_type(e: &Enum) -> (r: Result<String, GenError>)
    ensures
        e.enum_type is Simple ==> (r matches Ok(out) && out@ == spec_emit_simple_enum_validation(
            *e,
        )),
        e.enum_type matches EnumType::Complex { case_key, content_key } ==> (((r is Err) <==> (
        content_key is None && spec_has_non_unit_case(e.cases@))) && (r matches Ok(out) ==> out@
            == spec_emit_complex_enum_validation(*e, case_key@, spec_opt_view(content_key)))),
        e.enum_type is Untagged ==> (((r is Err) <==> !spec_untagged_keys_unique(*e)) && (
        r matches Ok(out) ==> out@ == spec_emit_untagged_enum_validation(*e))),
        r matches Err(ge) ==> crate::type_script::enum_type::spec_enum_error_matches(*e, ge),
{
    match &e.enum_type {
        EnumType::Simple => Ok(emit_simple_enum_type(e)),
        EnumType::Complex { case_key, content_key } => emit_complex_enum_type(
            e,
            case_key,
            content_key,
        ),
        EnumType::Untagged => emit_untagged_enum_type(e),
    }
}

} // verus!
