//! The TypeScript type emitter for untagged enums. Unit cases collapse to a
//! union of string literals; each payload-bearing case appears as an
//! optional member keyed by the case's inflected name (its wrapper key),
//! with a named case type beside the union where one is needed.

use vstd::prelude::*;
use vstd::string::StringExecFns;

use crate::inflect::{inflect, inflected, Inflection};
use crate::schema::{spec_is_unit, case_is_unit, Enum, EnumCase, GenError, TypeFieldsDefinition};
use crate::ts_type::{named_fields, spec_named_fields, spec_ts_type, spec_ts_type_list, to_ts_type};

verus! {

/// The wrapper key (and unit literal) of a case: its name inflected with the
/// enum's convention.
pub open spec fn spec_wrapper_key(inf: Inflection, c: EnumCase) -> Seq<char> {
    inflected(inf, c.name@)
}

/// Whether the wrapper keys of all payload-bearing cases are pairwise
/// distinct. Untagged disambiguation is impossible without this.
pub open spec fn spec_untagged_keys_unique(e: Enum) -> bool {
    forall|i: int, j: int|
        0 <= i < j < e.cases@.len() && !spec_is_unit(e.cases@[i]) && !spec_is_unit(e.cases@[j])
            ==> spec_wrapper_key(e.inflection, e.cases@[i]) != spec_wrapper_key(
            e.inflection,
            e.cases@[j],
        )
}

/// Looks for two payload-bearing cases sharing a wrapper key; returns the
/// shared key if there is one.
pub fn find_duplicate_wrapper_key(e: &Enum) -> (r: Option<String>)
    ensures
        (r is None) <==> spec_untagged_keys_unique(*e),
        r matches Some(k) ==> exists|i: int, j: int|
            0 <= i < j < e.cases@.len() && !spec_is_unit(e.cases@[i]) && !spec_is_unit(
                e.cases@[j],
            ) && spec_wrapper_key(e.inflection, e.cases@[i]) == spec_wrapper_key(
                e.inflection,
                e.cases@[j],
            ) && k@ == spec_wrapper_key(e.inflection, e.cases@[i]),
{
    let n = e.cases.len();
    let mut labels: Vec<String> = Vec::new();
    let mut k: usize = 0;
    while k < n
        invariant
            0 <= k <= e.cases@.len(),
            n == e.cases@.len(),
            labels@.len() == k,
            forall|m: int|
                0 <= m < k ==> labels@[m]@ == spec_wrapper_key(e.inflection, e.cases@[m]),
        decreases n - k,
    {
        labels.push(inflect(e.cases[k].name.as_str(), e.inflection));
        k += 1;
    }
    let mut i: usize = 0;
    while i < n
        invariant
            0 <= i <= n,
            n == e.cases@.len(),
            labels@.len() == n,
            forall|m: int|
                0 <= m < n ==> labels@[m]@ == spec_wrapper_key(e.inflection, e.cases@[m]),
            forall|a: int, b: int|
                0 <= a < b < n && a < i && !spec_is_unit(e.cases@[a]) && !spec_is_unit(e.cases@[b])
                    ==> spec_wrapper_key(e.inflection, e.cases@[a]) != spec_wrapper_key(
                    e.inflection,
                    e.cases@[b],
                ),
        decreases n - i,
    {
        if !case_is_unit(&e.cases[i]) {
            let mut j: usize = i + 1;
            while j < n
                invariant
                    0 <= i < j <= n,
                    n == e.cases@.len(),
                    labels@.len() == n,
                    !spec_is_unit(e.cases@[i as int]),
                    forall|m: int|
                        0 <= m < n ==> labels@[m]@ == spec_wrapper_key(e.inflection, e.cases@[m]),
                    forall|b: int|
                        i < b < j && !spec_is_unit(e.cases@[b]) ==> spec_wrapper_key(
                            e.inflection,
                            e.cases@[i as int],
                        ) != spec_wrapper_key(e.inflection, e.cases@[b]),
                decreases n - j,
            {
                if !case_is_unit(&e.cases[j]) {
                    if labels[i].eq(&labels[j]) {
                        return Some(inflect(e.cases[i].name.as_str(), e.inflection));
                    }
                }
                j += 1;
            }
        }
        i += 1;
    }
    None
}

/// The name under which a payload-bearing case's type is declared: the sole
/// member's own type for an unwrapped single-member tuple, else a name
/// derived from the parent enum's and the case's names.
pub open spec fn spec_case_type_name(c: EnumCase, parent: Seq<char>) -> Seq<char> {
    match c.type_ {
        TypeFieldsDefinition::Unit => Seq::empty(),
        TypeFieldsDefinition::Tuple(ms) => if ms@.len() == 1 {
            spec_ts_type(ms@[0])
        } else {
            parent + "Case"@ + c.name@
        },
        TypeFieldsDefinition::Named(_) => parent + "Case"@ + c.name@,
    }
}

/// The name under which a payload-bearing case's type is declared.
pub fn emit_case_type_name(case: &EnumCase, parent_name: &str) -> (r: String)
    requires
        !spec_is_unit(*case),
    ensures
        r@ == spec_case_type_name(*case, parent_name@),
{
    match &case.type_ {
        TypeFieldsDefinition::Unit => String::new(),
        TypeFieldsDefinition::Tuple(ms) => {
            if ms.len() == 1 {
                to_ts_type(&ms[0])
            } else {
                let mut s = parent_name.to_string();
                s.append("Case");
                s.append(case.name.as_str());
                proof {
                    assert(s@ =~= spec_case_type_name(*case, parent_name@));
                }
                s
            }
        },
        TypeFieldsDefinition::Named(_) => {
            let mut s = parent_name.to_string();
            s.append("Case");
            s.append(case.name.as_str());
            proof {
                assert(s@ =~= spec_case_type_name(*case, parent_name@));
            }
            s
        },
    }
}

/// The right-hand side of a payload-bearing case's type declaration.
pub open spec fn spec_case_type_contents(c: EnumCase, parent: Seq<char>) -> Seq<char> {
    match c.type_ {
        TypeFieldsDefinition::Unit => Seq::empty(),
        TypeFieldsDefinition::Tuple(ms) => if ms@.len() == 1 {
            spec_ts_type(ms@[0])
        } else {
            "["@ + spec_ts_type_list(ms@, ms@.len() as int) + "]"@
        },
        TypeFieldsDefinition::Named(fs) => "{\n"@ + spec_named_fields(fs@, fs@.len() as int)
            + "}"@,
    }
}

fn emit_case_type_contents(case: &EnumCase, parent_name: &str) -> (r: String)
    requires
        !spec_is_unit(*case),
    ensures
        r@ == spec_case_type_contents(*case, parent_name@),
{
    match &case.type_ {
        TypeFieldsDefinition::Unit => String::new(),
        TypeFieldsDefinition::Tuple(ms) => {
            if ms.len() == 1 {
                to_ts_type(&ms[0])
            } else {
                let mut s = String::new();
                s.append("[");
                let mut i: usize = 0;
                while i < ms.len()
                    invariant
                        0 <= i <= ms@.len(),
                        s@ == "["@ + spec_ts_type_list(ms@, i as int),
                    decreases ms@.len() - i,
                {
                    if i > 0 {
                        s.append(", ");
                    }
                    let part = to_ts_type(&ms[i]);
                    s.append(part.as_str());
                    proof {
                        assert(s@ =~= "["@ + spec_ts_type_list(ms@, i + 1));
                    }
                    i += 1;
                }
                s.append("]");
                proof {
                    assert(s@ =~= spec_case_type_contents(*case, parent_name@));
                }
                s
            }
        },
        TypeFieldsDefinition::Named(fs) => {
            let lines = named_fields(fs);
            let mut s = String::new();
            s.append("{\n");
            s.append(lines.as_str());
            s.append("}");
            proof {
                assert(s@ =~= spec_case_type_contents(*case, parent_name@));
            }
            s
        },
    }
}

/// A payload-bearing case's standalone type declaration; elided (empty) when
/// it would only alias an already-named type (the single-member tuple
/// unwrap).
pub open spec fn spec_emit_case_type(c: EnumCase, parent: Seq<char>) -> Seq<char> {
    if spec_case_type_name(c, parent) == spec_case_type_contents(c, parent) {
        Seq::empty()
    } else {
        "export type "@ + spec_case_type_name(c, parent) + " = "@ + spec_case_type_contents(
            c,
            parent,
        ) + ";\n"@
    }
}

fn emit_case_type(case: &EnumCase, parent_name: &str) -> (r: String)
    requires
        !spec_is_unit(*case),
    ensures
        r@ == spec_emit_case_type(*case, parent_name@),
{
    let name = emit_case_type_name(case, parent_name);
    let contents = emit_case_type_contents(case, parent_name);
    if name.eq(&contents) {
        String::new()
    } else {
        let mut s = String::new();
        s.append("export type ");
        s.append(name.as_str());
        s.append(" = ");
        s.append(contents.as_str());
        s.append(";\n");
        proof {
            assert(s@ =~= spec_emit_case_type(*case, parent_name@));
        }
        s
    }
}

/// Whether some of the first `n` cases is a unit case.
pub open spec fn spec_has_unit_upto(cases: Seq<EnumCase>, n: int) -> bool {
    exists|j: int| 0 <= j < n && spec_is_unit(cases[j])
}

/// Whether some of the first `n` cases bears a payload.
pub open spec fn spec_has_non_unit_upto(cases: Seq<EnumCase>, n: int) -> bool {
    exists|j: int| 0 <= j < n && !spec_is_unit(cases[j])
}

/// The unit cases among the first `n`, as quoted literals joined with
/// `" | "`.
pub open spec fn spec_unit_cases_join(e: Enum, n: int) -> Seq<char>
    decreases n,
{
    if n <= 0 {
        Seq::empty()
    } else if !spec_is_unit(e.cases@[n - 1]) {
        spec_unit_cases_join(e, n - 1)
    } else if !spec_has_unit_upto(e.cases@, n - 1) {
        "'"@ + spec_wrapper_key(e.inflection, e.cases@[n - 1]) + "'"@
    } else {
        spec_unit_cases_join(e, n - 1) + " | "@ + "'"@ + spec_wrapper_key(
            e.inflection,
            e.cases@[n - 1],
        ) + "'"@
    }
}

/// The payload-bearing cases among the first `n`, as optional wrapper-keyed
/// members joined with `",\n"`.
pub open spec fn spec_member_cases_join(e: Enum, n: int) -> Seq<char>
    decreases n,
{
    if n <= 0 {
        Seq::empty()
    } else if spec_is_unit(e.cases@[n - 1]) {
        spec_member_cases_join(e, n - 1)
    } else if !spec_has_non_unit_upto(e.cases@, n - 1) {
        spec_wrapper_key(e.inflection, e.cases@[n - 1]) + "?: "@ + spec_case_type_name(
            e.cases@[n - 1],
            e.name@,
        )
    } else {
        spec_member_cases_join(e, n - 1) + ",\n"@ + spec_wrapper_key(e.inflection, e.cases@[n - 1])
            + "?: "@ + spec_case_type_name(e.cases@[n - 1], e.name@)
    }
}

/// The standalone case type declarations of the payload-bearing cases among
/// the first `n`, joined with `"\n"`.
pub open spec fn spec_case_types_join(e: Enum, n: int) -> Seq<char>
    decreases n,
{
    if n <= 0 {
        Seq::empty()
    } else if spec_is_unit(e.cases@[n - 1]) {
        spec_case_types_join(e, n - 1)
    } else if !spec_has_non_unit_upto(e.cases@, n - 1) {
        spec_emit_case_type(e.cases@[n - 1], e.name@)
    } else {
        spec_case_types_join(e, n - 1) + "\n"@ + spec_emit_case_type(e.cases@[n - 1], e.name@)
    }
}

/// The full type declaration of an untagged enum: the union of its unit
/// literals and its optional-wrapper-keyed members, preceded by the named
/// case types.
pub open spec fn spec_emit_untaggedd_enum_type(e: Enum) -> Seq<char> {
    let n = e.cases@.len() as int;
    let has_u = spec_has_unit_upto(e.cases@, n);
    let has_m = spec_has_non_unit_upto(e.cases@, n);
    let units = spec_unit_cases_join(e, n);
    let members = "{\n"@ + spec_member_cases_join(e, n) + "\n}"@;
    let case_types = spec_case_types_join(e, n);
    if !has_u && !has_m {
        "export type "@ + e.name@ + " = never;\n"@
    } else if !has_u {
        case_types + "\n\nexport type "@ + e.name@ + " = "@ + members + ";\n"@
    } else if !has_m {
        "export type "@ + e.name@ + " = "@ + units + ";\n"@
    } else {
        case_types + "\n\nexport type "@ + e.name@ + " = "@ + units + " | "@ + members + ";\n"@
    }
}

/// Emits the type declaration of an untagged enum, or reports the schema
/// error when two payload-bearing cases share a wrapper key.
pub fn emit_untaggedd_enum_type(e: &Enum) -> (r: Result<String, GenError>)
    ensures
        (r is Err) <==> !spec_untagged_keys_unique(*e),
        r matches Err(ge) ==> (ge matches GenError::DuplicateWrapperKey { enum_name, key }
            && enum_name@ == e.name@ && exists|i: int, j: int|
            0 <= i < j < e.cases@.len() && !spec_is_unit(e.cases@[i]) && !spec_is_unit(
                e.cases@[j],
            ) && spec_wrapper_key(e.inflection, e.cases@[i]) == spec_wrapper_key(
                e.inflection,
                e.cases@[j],
            ) && key@ == spec_wrapper_key(e.inflection, e.cases@[i])),
        r matches Ok(out) ==> out@ == spec_emit_untaggedd_enum_type(*e),
{
    match find_duplicate_wrapper_key(e) {
        Some(key) => Err(GenError::DuplicateWrapperKey { enum_name: e.name.clone(), key }),
        None => {
            let n = e.cases.len();
            let ghost ge = *e;

            let mut units = String::new();
            let mut has_u = false;
            let mut i: usize = 0;
            while i < n
                invariant
                    0 <= i <= n,
                    n == ge.cases@.len(),
                    ge == *e,
                    has_u == spec_has_unit_upto(ge.cases@, i as int),
                    units@ == spec_unit_cases_join(ge, i as int),
                    !has_u ==> units@ == Seq::<char>::empty(),
                decreases n - i,
            {
                if case_is_unit(&e.cases[i]) {
                    if has_u {
                        units.append(" | ");
                    }
                    units.append("'");
                    let key = inflect(e.cases[i].name.as_str(), e.inflection);
                    units.append(key.as_str());
                    units.append("'");
                    has_u = true;
                    proof {
                        assert(units@ =~= spec_unit_cases_join(ge, i + 1));
                    }
                }
                i += 1;
            }

            let mut members = String::new();
            let mut has_m = false;
            let mut i: usize = 0;
            while i < n
                invariant
                    0 <= i <= n,
                    n == ge.cases@.len(),
                    ge == *e,
                    has_m == spec_has_non_unit_upto(ge.cases@, i as int),
                    members@ == spec_member_cases_join(ge, i as int),
                    !has_m ==> members@ == Seq::<char>::empty(),
                decreases n - i,
            {
                if !case_is_unit(&e.cases[i]) {
                    if has_m {
                        members.append(",\n");
                    }
                    let key = inflect(e.cases[i].name.as_str(), e.inflection);
                    members.append(key.as_str());
                    members.append("?: ");
                    let ctn = emit_case_type_name(&e.cases[i], e.name.as_str());
                    members.append(ctn.as_str());
                    has_m = true;
                    proof {
                        assert(members@ =~= spec_member_cases_join(ge, i + 1));
                    }
                }
                i += 1;
            }

            let mut case_types = String::new();
            let mut has_ct = false;
            let mut i: usize = 0;
            while i < n
                invariant
                    0 <= i <= n,
                    n == ge.cases@.len(),
                    ge == *e,
                    has_ct == spec_has_non_unit_upto(ge.cases@, i as int),
                    case_types@ == spec_case_types_join(ge, i as int),
                    !has_ct ==> case_types@ == Seq::<char>::empty(),
                decreases n - i,
            {
                if !case_is_unit(&e.cases[i]) {
                    if has_ct {
                        case_types.append("\n");
                    }
                    let ct = emit_case_type(&e.cases[i], e.name.as_str());
                    case_types.append(ct.as_str());
                    has_ct = true;
                    proof {
                        assert(case_types@ =~= spec_case_types_join(ge, i + 1));
                    }
                }
                i += 1;
            }

            let mut out = String::new();
            if !has_u && !has_m {
                out.append("export type ");
                out.append(e.name.as_str());
                out.append(" = never;\n");
            } else if !has_u {
                out.append(case_types.as_str());
                out.append("\n\nexport type ");
                out.append(e.name.as_str());
                out.append(" = ");
                out.append("{\n");
                out.append(members.as_str());
                out.append("\n}");
                out.append(";\n");
            } else if !has_m {
                out.append("export type ");
                out.append(e.name.as_str());
                out.append(" = ");
                out.append(units.as_str());
                out.append(";\n");
            } else {
                out.append(case_types.as_str());
                out.append("\n\nexport type ");
                out.append(e.name.as_str());
                out.append(" = ");
                out.append(units.as_str());
                out.append(" | ");
                out.append("{\n");
                out.append(members.as_str());
                out.append("\n}");
                out.append(";\n");
            }
            proof {
                assert(out@ =~= spec_emit_untaggedd_enum_type(ge));
            }
            Ok(out)
        },
    }
}

} // verus!
