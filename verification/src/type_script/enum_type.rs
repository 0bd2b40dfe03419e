//! The TypeScript type emitter for enums: dispatches on the enum's tagging
//! convention. A simple enum becomes a closed string-literal enum; a complex
//! (tagged) enum becomes a discriminated union with a label union and a
//! symbolic constant map beside it.

use vstd::prelude::*;
use vstd::string::StringExecFns;

use crate::inflect::{inflect, inflected, Inflection};
use crate::schema::{
    case_is_unit, has_non_unit_case, spec_has_non_unit_case, spec_is_unit, Enum, EnumCase,
    EnumType, GenError, TypeFieldsDefinition,
};
use crate::ts_type::{named_fields, spec_named_fields, spec_ts_type, to_ts_type};
use crate::type_script::untagged_enum_type::{
    emit_untaggedd_enum_type, spec_emit_untaggedd_enum_type, spec_untagged_keys_unique,
    spec_wrapper_key,
};

verus! {

/// The wire-form label of case `i` of `e`: its name inflected with the
/// enum's convention. The label union, the constant map and the validator's
/// tag tests all speak of this one function.
pub open spec fn spec_case_label(e: Enum, i: int) -> Seq<char> {
    inflected(e.inflection, e.cases@[i].name@)
}

/// What the error reported for a failing enum says: the missing content key
/// names the first payload-bearing case; the duplicate wrapper key names a
/// key two payload-bearing cases share. Both emitters report identically.
pub open spec fn spec_enum_error_matches(e: Enum, ge: GenError) -> bool {
    ||| (e.enum_type matches EnumType::Complex { content_key: co, .. } && co is None && (
    ge matches GenError::MissingContentKey { enum_name, case_name } && enum_name@ == e.name@
        && exists|i: int|
        0 <= i < e.cases@.len() && !spec_is_unit(e.cases@[i]) && case_name@ == e.cases@[i].name@
            && (forall|j: int| 0 <= j < i ==> spec_is_unit(e.cases@[j]))))
    ||| (e.enum_type is Untagged && (ge matches GenError::DuplicateWrapperKey { enum_name, key }
        && enum_name@ == e.name@ && exists|i: int, j: int|
        0 <= i < j < e.cases@.len() && !spec_is_unit(e.cases@[i]) && !spec_is_unit(e.cases@[j])
            && spec_wrapper_key(e.inflection, e.cases@[i]) == spec_wrapper_key(
            e.inflection,
            e.cases@[j],
        ) && key@ == spec_wrapper_key(e.inflection, e.cases@[i])))
}

/// The view of an optional content key.
pub open spec fn spec_opt_view(o: Option<String>) -> Option<Seq<char>> {
    match o {
        Some(s) => Some(s@),
        None => None,
    }
}

/// The name of a case's standalone type declaration in a tagged union,
/// derived from the parent enum's and the case's names.
pub open spec fn spec_union_case_type_name(c: EnumCase, parent: Seq<char>) -> Seq<char> {
    parent + "Case"@ + c.name@
}

/// The name of a case's standalone type declaration in a tagged union.
pub fn union_case_type_name(case: &EnumCase, parent_name: &str) -> (r: String)
    ensures
        r@ == spec_union_case_type_name(*case, parent_name@),
{
    let mut s = parent_name.to_string();
    s.append("Case");
    s.append(case.name.as_str());
    proof {
        assert(s@ =~= spec_union_case_type_name(*case, parent_name@));
    }
    s
}

/// One line of a simple enum declaration: `  Name = "label",`.
pub open spec fn spec_simple_case_line(e: Enum, i: int) -> Seq<char> {
    "  "@ + e.cases@[i].name@ + " = \""@ + spec_case_label(e, i) + "\",\n"@
}

/// The first `n` lines of a simple enum declaration.
pub open spec fn spec_simple_cases(e: Enum, n: int) -> Seq<char>
    decreases n,
{
    if n <= 0 {
        Seq::empty()
    } else {
        spec_simple_cases(e, n - 1) + spec_simple_case_line(e, n - 1)
    }
}

/// The emitted declaration of a simple enum: a closed set of string
/// literals.
pub open spec fn spec_emit_simple_enum_type(e: Enum) -> Seq<char> {
    "\nexport enum "@ + e.name@ + " {\n"@ + spec_simple_cases(e, e.cases@.len() as int) + "}\n"@
}

/// Emits the declaration of a simple enum: one member per case, each equal
/// to the case's inflected name.
pub fn emit_simple_enum_type(e: &Enum) -> (r: String)
    ensures
        r@ == spec_emit_simple_enum_type(*e),
{
    let mut cases = String::new();
    let mut i: usize = 0;
    while i < e.cases.len()
        invariant
            0 <= i <= e.cases@.len(),
            cases@ == spec_simple_cases(*e, i as int),
        decreases e.cases@.len() - i,
    {
        let label = inflect(e.cases[i].name.as_str(), e.inflection);
        cases.append("  ");
        cases.append(e.cases[i].name.as_str());
        cases.append(" = \"");
        cases.append(label.as_str());
        cases.append("\",\n");
        proof {
            assert(cases@ =~= spec_simple_cases(*e, i + 1));
        }
        i += 1;
    }
    let mut out = String::new();
    out.append("\nexport enum ");
    out.append(e.name.as_str());
    out.append(" {\n");
    out.append(cases.as_str());
    out.append("}\n");
    proof {
        assert(out@ =~= spec_emit_simple_enum_type(*e));
    }
    out
}

/// The first `n` case labels as quoted literals joined with `"\n  | "`.
pub open spec fn spec_cases_union_list(e: Enum, n: int) -> Seq<char>
    decreases n,
{
    if n <= 0 {
        Seq::empty()
    } else if n == 1 {
        "\""@ + spec_case_label(e, 0) + "\""@
    } else {
        spec_cases_union_list(e, n - 1) + "\n  | "@ + "\""@ + spec_case_label(e, n - 1) + "\""@
    }
}

/// The union of all case labels: `export type {name}Case = ...;`.
pub open spec fn spec_generate_cases_union(e: Enum) -> Seq<char> {
    "export type "@ + e.name@ + "Case = "@ + spec_cases_union_list(e, e.cases@.len() as int)
        + ";\n"@
}

/// Emits the union of all case labels.
pub fn generate_cases_union(e: &Enum) -> (r: String)
    ensures
        r@ == spec_generate_cases_union(*e),
{
    let mut vals = String::new();
    let mut i: usize = 0;
    while i < e.cases.len()
        invariant
            0 <= i <= e.cases@.len(),
            vals@ == spec_cases_union_list(*e, i as int),
        decreases e.cases@.len() - i,
    {
        if i > 0 {
            vals.append("\n  | ");
        }
        vals.append("\"");
        let label = inflect(e.cases[i].name.as_str(), e.inflection);
        vals.append(label.as_str());
        vals.append("\"");
        proof {
            assert(vals@ =~= spec_cases_union_list(*e, i + 1));
        }
        i += 1;
    }
    let mut out = String::new();
    out.append("export type ");
    out.append(e.name.as_str());
    out.append("Case = ");
    out.append(vals.as_str());
    out.append(";\n");
    proof {
        assert(out@ =~= spec_generate_cases_union(*e));
    }
    out
}

/// One entry of the constant map: `  Name: "label",`.
pub open spec fn spec_case_key_const_entry(e: Enum, i: int) -> Seq<char> {
    "  "@ + e.cases@[i].name@ + ": \""@ + spec_case_label(e, i) + "\",\n"@
}

/// The first `n` entries of the constant map.
pub open spec fn spec_case_key_const_entries(e: Enum, n: int) -> Seq<char>
    decreases n,
{
    if n <= 0 {
        Seq::empty()
    } else {
        spec_case_key_const_entries(e, n - 1) + spec_case_key_const_entry(e, n - 1)
    }
}

/// The name-to-label constant map: `export const {name}CaseKey = {...};`.
pub open spec fn spec_generate_case_key_const(e: Enum) -> Seq<char> {
    "export const "@ + e.name@ + "CaseKey = {\n"@ + spec_case_key_const_entries(
        e,
        e.cases@.len() as int,
    ) + "};\n"@
}

/// Emits the name-to-label constant map, one entry per case, so callers can
/// reference tag values symbolically.
pub fn generate_case_key_const(e: &Enum) -> (r: String)
    ensures
        r@ == spec_generate_case_key_const(*e),
{
    let mut vals = String::new();
    let mut i: usize = 0;
    while i < e.cases.len()
        invariant
            0 <= i <= e.cases@.len(),
            vals@ == spec_case_key_const_entries(*e, i as int),
        decreases e.cases@.len() - i,
    {
        vals.append("  ");
        vals.append(e.cases[i].name.as_str());
        vals.append(": \"");
        let label = inflect(e.cases[i].name.as_str(), e.inflection);
        vals.append(label.as_str());
        vals.append("\",\n");
        proof {
            assert(vals@ =~= spec_case_key_const_entries(*e, i + 1));
        }
        i += 1;
    }
    let mut out = String::new();
    out.append("export const ");
    out.append(e.name.as_str());
    out.append("CaseKey = {\n");
    out.append(vals.as_str());
    out.append("};\n");
    proof {
        assert(out@ =~= spec_generate_case_key_const(*e));
    }
    out
}

/// The first `n` tuple member types joined with `",\n    "`.
pub open spec fn spec_tuple_items(ms: Seq<crate::schema::Type>, n: int) -> Seq<char>
    decreases n,
        when 0 <= n <= ms.len()
{
    if n <= 0 {
        Seq::empty()
    } else if n == 1 {
        spec_ts_type(ms[0])
    } else {
        spec_tuple_items(ms, n - 1) + ",\n    "@ + spec_ts_type(ms[n - 1])
    }
}

/// The case's payload member inside its union type declaration: the content
/// key bound to the payload's type.
pub open spec fn spec_union_type_fields(
    c: EnumCase,
    co: Option<Seq<char>>,
    parent: Seq<char>,
) -> Seq<char> {
    match c.type_ {
        TypeFieldsDefinition::Unit => Seq::empty(),
        TypeFieldsDefinition::Tuple(ms) => if ms@.len() == 1 {
            co->0 + ": "@ + spec_ts_type(ms@[0])
        } else {
            co->0 + ": [\n    "@ + spec_tuple_items(ms@, ms@.len() as int) + "\n  ]"@
        },
        TypeFieldsDefinition::Named(fs) => co->0 + ": {\n"@ + spec_named_fields(
            fs@,
            fs@.len() as int,
        ) + "  }"@,
    }
}

/// One case's standalone type declaration in a tagged union: the case key
/// bound to the case's label, and the payload under the content key.
pub open spec fn spec_union_type_text(
    c: EnumCase,
    ck: Seq<char>,
    co: Option<Seq<char>>,
    inf: Inflection,
    parent: Seq<char>,
) -> Seq<char> {
    let ctn = spec_union_case_type_name(c, parent);
    let id = inflected(inf, c.name@);
    if c.type_ is Unit {
        "\nexport type "@ + ctn + " = {\n  "@ + ck + ": \""@ + id + "\",\n};\n"@
    } else {
        "\nexport type "@ + ctn + " = {\n  "@ + ck + ": \""@ + id + "\",\n  "@
            + spec_union_type_fields(c, co, parent) + "\n};\n"@
    }
}

/// Emits one case's standalone type declaration in a tagged union.
pub fn generate_union_type(
    case: &EnumCase,
    case_key: &String,
    content_key: &Option<String>,
    inflection: Inflection,
    parent_name: &str,
) -> (r: String)
    requires
        content_key is None ==> spec_is_unit(*case),
    ensures
        r@ == spec_union_type_text(
            *case,
            case_key@,
            spec_opt_view(*content_key),
            inflection,
            parent_name@,
        ),
{
    let ctn = union_case_type_name(case, parent_name);
    let id = inflect(case.name.as_str(), inflection);
    let mut out = String::new();
    out.append("\nexport type ");
    out.append(ctn.as_str());
    out.append(" = {\n  ");
    out.append(case_key.as_str());
    out.append(": \"");
    out.append(id.as_str());
    match &case.type_ {
        TypeFieldsDefinition::Unit => {
            out.append("\",\n};\n");
            proof {
                assert(out@ =~= spec_union_type_text(
                    *case,
                    case_key@,
                    spec_opt_view(*content_key),
                    inflection,
                    parent_name@,
                ));
            }
            out
        },
        TypeFieldsDefinition::Tuple(ms) => {
            out.append("\",\n  ");
            let ck = match content_key {
                Some(c) => c,
                None => {
                    proof {
                        assert(false);
                    }
                    case_key
                },
            };
            out.append(ck.as_str());
            if ms.len() == 1 {
                out.append(": ");
                let ty = to_ts_type(&ms[0]);
                out.append(ty.as_str());
            } else {
                out.append(": [\n    ");
                let mut items = String::new();
                let mut i: usize = 0;
                while i < ms.len()
                    invariant
                        0 <= i <= ms@.len(),
                        items@ == spec_tuple_items(ms@, i as int),
                    decreases ms@.len() - i,
                {
                    if i > 0 {
                        items.append(",\n    ");
                    }
                    let ty = to_ts_type(&ms[i]);
                    items.append(ty.as_str());
                    proof {
                        assert(items@ =~= spec_tuple_items(ms@, i + 1));
                    }
                    i += 1;
                }
                out.append(items.as_str());
                out.append("\n  ]");
            }
            out.append("\n};\n");
            proof {
                assert(out@ =~= spec_union_type_text(
                    *case,
                    case_key@,
                    spec_opt_view(*content_key),
                    inflection,
                    parent_name@,
                ));
            }
            out
        },
        TypeFieldsDefinition::Named(fs) => {
            out.append("\",\n  ");
            let ck = match content_key {
                Some(c) => c,
                None => {
                    proof {
                        assert(false);
                    }
                    case_key
                },
            };
            out.append(ck.as_str());
            out.append(": {\n");
            let lines = named_fields(fs);
            out.append(lines.as_str());
            out.append("  }");
            out.append("\n};\n");
            proof {
                assert(out@ =~= spec_union_type_text(
                    *case,
                    case_key@,
                    spec_opt_view(*content_key),
                    inflection,
                    parent_name@,
                ));
            }
            out
        },
    }
}

/// The standalone type declarations of the first `n` cases, concatenated.
pub open spec fn spec_union_types(e: Enum, ck: Seq<char>, co: Option<Seq<char>>, n: int) -> Seq<
    char,
>
    decreases n,
{
    if n <= 0 {
        Seq::empty()
    } else {
        spec_union_types(e, ck, co, n - 1) + spec_union_type_text(
            e.cases@[n - 1],
            ck,
            co,
            e.inflection,
            e.name@,
        )
    }
}

/// Emits the standalone type declarations of every case, in declaration
/// order.
pub fn generate_union_types(e: &Enum, case_key: &String, content_key: &Option<String>) -> (r:
    String)
    requires
        content_key is None ==> !spec_has_non_unit_case(e.cases@),
    ensures
        r@ == spec_union_types(*e, case_key@, spec_opt_view(*content_key), e.cases@.len() as int),
{
    let mut out = String::new();
    let mut i: usize = 0;
    while i < e.cases.len()
        invariant
            0 <= i <= e.cases@.len(),
            content_key is None ==> !spec_has_non_unit_case(e.cases@),
            out@ == spec_union_types(*e, case_key@, spec_opt_view(*content_key), i as int),
        decreases e.cases@.len() - i,
    {
        let part = generate_union_type(&e.cases[i], case_key, content_key, e.inflection,
            e.name.as_str());
        out.append(part.as_str());
        proof {
            assert(out@ =~= spec_union_types(*e, case_key@, spec_opt_view(*content_key), i + 1));
        }
        i += 1;
    }
    out
}

/// The first `n` case type names joined with `"\n    | "`.
pub open spec fn spec_union_schema_list(e: Enum, n: int) -> Seq<char>
    decreases n,
{
    if n <= 0 {
        Seq::empty()
    } else if n == 1 {
        spec_union_case_type_name(e.cases@[0], e.name@)
    } else {
        spec_union_schema_list(e, n - 1) + "\n    | "@ + spec_union_case_type_name(
            e.cases@[n - 1],
            e.name@,
        )
    }
}

/// The union over all case type names: `export type {name} = ...;`.
pub open spec fn spec_generate_union_schema(e: Enum) -> Seq<char> {
    "\nexport type "@ + e.name@ + " = "@ + spec_union_schema_list(e, e.cases@.len() as int)
        + ";\n"@
}

/// Emits the union over all case type names.
pub fn generate_union_schema(e: &Enum) -> (r: String)
    ensures
        r@ == spec_generate_union_schema(*e),
{
    let mut vals = String::new();
    let mut i: usize = 0;
    while i < e.cases.len()
        invariant
            0 <= i <= e.cases@.len(),
            vals@ == spec_union_schema_list(*e, i as int),
        decreases e.cases@.len() - i,
    {
        if i > 0 {
            vals.append("\n    | ");
        }
        let ctn = union_case_type_name(&e.cases[i], e.name.as_str());
        vals.append(ctn.as_str());
        proof {
            assert(vals@ =~= spec_union_schema_list(*e, i + 1));
        }
        i += 1;
    }
    let mut out = String::new();
    out.append("\nexport type ");
    out.append(e.name.as_str());
    out.append(" = ");
    out.append(vals.as_str());
    out.append(";\n");
    proof {
        assert(out@ =~= spec_generate_union_schema(*e));
    }
    out
}

/// The full type output of a complex enum: label union, constant map, case
/// types and the union schema.
pub open spec fn spec_emit_complex_enum_type(e: Enum, ck: Seq<char>, co: Option<Seq<char>>) -> Seq<
    char,
> {
    "\n"@ + spec_generate_cases_union(e) + "\n\n"@ + spec_generate_case_key_const(e) + "\n"@
        + spec_union_types(e, ck, co, e.cases@.len() as int) + "\n"@ + spec_generate_union_schema(
        e,
    ) + "\n"@
}

/// Emits the type declarations of a complex (tagged) enum, or reports the
/// schema error when a payload-bearing case exists and no content key was
/// given.
pub fn emit_complex_enum_type(e: &Enum, case_key: &String, content_key: &Option<String>) -> (r:
    Result<String, GenError>)
    ensures
        (r is Err) <==> (content_key is None && spec_has_non_unit_case(e.cases@)),
        r matches Err(ge) ==> (ge matches GenError::MissingContentKey { enum_name, case_name }
            && enum_name@ == e.name@ && exists|i: int|
            0 <= i < e.cases@.len() && !spec_is_unit(e.cases@[i]) && case_name@
                == e.cases@[i].name@ && (forall|j: int| 0 <= j < i ==> spec_is_unit(e.cases@[j]))),
        r matches Ok(out) ==> out@ == spec_emit_complex_enum_type(
            *e,
            case_key@,
            spec_opt_view(*content_key),
        ),
{
    if content_key.is_none() {
        let mut i: usize = 0;
        while i < e.cases.len()
            invariant
                0 <= i <= e.cases@.len(),
                content_key is None,
                forall|j: int| 0 <= j < i ==> spec_is_unit(e.cases@[j]),
            decreases e.cases@.len() - i,
        {
            if !case_is_unit(&e.cases[i]) {
                proof {
                    assert(!spec_is_unit(e.cases@[i as int]));
                    assert(spec_has_non_unit_case(e.cases@));
                }
                return Err(
                    GenError::MissingContentKey {
                        enum_name: e.name.clone(),
                        case_name: e.cases[i].name.clone(),
                    },
                );
            }
            i += 1;
        }
    }
    let cases_union = generate_cases_union(e);
    let case_keys_const = generate_case_key_const(e);
    let union_types = generate_union_types(e, case_key, content_key);
    let union_schema = generate_union_schema(e);
    let mut out = String::new();
    out.append("\n");
    out.append(cases_union.as_str());
    out.append("\n\n");
    out.append(case_keys_const.as_str());
    out.append("\n");
    out.append(union_types.as_str());
    out.append("\n");
    out.append(union_schema.as_str());
    out.append("\n");
    proof {
        assert(out@ =~= spec_emit_complex_enum_type(*e, case_key@, spec_opt_view(*content_key)));
    }
    Ok(out)
}

/// Emits the type declarations of an enum, dispatching on its tagging
/// convention; the representation fully determines the emission.
pub fn emit_enum_type(e: &Enum) -> (r: Result<String, GenError>)
    ensures
        e.enum_type is Simple ==> (r matches Ok(out) && out@ == spec_emit_simple_enum_type(*e)),
        e.enum_type matches EnumType::Complex { case_key, content_key } ==> (((r is Err) <==> (
        content_key is None && spec_has_non_unit_case(e.cases@))) && (r matches Ok(out) ==> out@
            == spec_emit_complex_enum_type(*e, case_key@, spec_opt_view(content_key)))),
        e.enum_type is Untagged ==> (((r is Err) <==> !spec_untagged_keys_unique(*e)) && (
        r matches Ok(out) ==> out@ == spec_emit_untaggedd_enum_type(*e))),
        r matches Err(ge) ==> spec_enum_error_matches(*e, ge),
{
    match &e.enum_type {
        EnumType::Simple => Ok(emit_simple_enum_type(e)),
        EnumType::Complex { case_key, content_key } => emit_complex_enum_type(
            e,
            case_key,
            content_key,
        ),
        EnumType::Untagged => emit_untaggedd_enum_type(e),
    }
}

} // verus!
