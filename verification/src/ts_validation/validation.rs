//! The type-directed validator generator: from the textual path of a
//! variable and a schema type, the fragment of validation logic guarding
//! that variable. Failure is always emitted, never evaluated here.

use vstd::prelude::*;
use vstd::string::StringExecFns;

use crate::numtext::{spec_dec, usize_to_string};
use crate::schema::{NamedField, PrimitiveKind, Type};
use crate::ts_type::{field_key, spec_field_key};

verus! {

/// The `typeof` tag an emitted validator expects for a primitive kind.
pub open spec fn spec_primitive_tag(k: PrimitiveKind) -> Seq<char> {
    match k {
        PrimitiveKind::Text => "string"@,
        PrimitiveKind::Int => "number"@,
        PrimitiveKind::UnsignedInt => "number"@,
        PrimitiveKind::Float => "number"@,
        PrimitiveKind::Boolean => "boolean"@,
    }
}

/// The validation fragment for a variable at `path` against type `t`.
pub open spec fn spec_type_validation(path: Seq<char>, t: Type) -> Seq<char>
    decreases t, 0int,
{
    match t {
        Type::Primitive(k) => "if (typeof "@ + path + " !== '"@ + spec_primitive_tag(k)
            + "') {\nthrow new Error(`Error parsing "@ + path + ": expected: "@
            + spec_primitive_tag(k) + ", found: ${typeof "@ + path + "}`);\n}\n"@,
        Type::Named(n) => n@ + ".validate("@ + path + ");\n"@,
        Type::Array(inner) => spec_array_validation(path, *inner),
        Type::Tuple(ms) => spec_tuple_validation(path, ms@),
        Type::Optional(inner) => "if ("@ + path + " !== null && "@ + path
            + " !== undefined) {\n"@ + spec_type_validation(path, *inner) + "}\n"@,
    }
}

/// The validation fragment for an array: a shape check, then a loop
/// validating every element at `path[i]`.
pub open spec fn spec_array_validation(path: Seq<char>, item: Type) -> Seq<char>
    decreases item, 1int,
{
    "if (!Array.isArray("@ + path + ")) {\nthrow new Error(`Error parsing "@ + path
        + ": expected: Array, found: ${typeof "@ + path + "}`);\n}\nfor (let i = 0; i < "@ + path
        + ".length; i++) {\n"@ + spec_type_validation(path + "[i]"@, item) + "}\n"@
}

/// The validations of the first `n` tuple members, each at its own indexed
/// path.
pub open spec fn spec_tuple_member_validations(path: Seq<char>, ms: Seq<Type>, n: int) -> Seq<char>
    decreases ms, n,
        when 0 <= n <= ms.len()
{
    if n <= 0 {
        Seq::empty()
    } else {
        spec_tuple_member_validations(path, ms, n - 1) + spec_type_validation(
            path + "["@ + spec_dec((n - 1) as nat) + "]"@,
            ms[n - 1],
        )
    }
}

/// The validation fragment for a tuple: a shape check, an exact length
/// check (a count mismatch is a failure), then one validation per position.
pub open spec fn spec_tuple_validation(path: Seq<char>, ms: Seq<Type>) -> Seq<char>
    decreases ms, ms.len() as int + 1,
{
    "if (!Array.isArray("@ + path + ")) {\nthrow new Error(`Error parsing "@ + path
        + ": expected: Array, found: ${typeof "@ + path + "}`);\n}\nif ("@ + path
        + ".length !== "@ + spec_dec(ms.len()) + ") {\nthrow new Error(`Error parsing "@ + path
        + ": expected: Array of length "@ + spec_dec(ms.len()) + ", found: length ${"@ + path
        + ".length}`);\n}\n"@ + spec_tuple_member_validations(path, ms, ms.len() as int)
}

/// Emits the validation fragment for a variable at `var_name` against `t`.
pub fn type_validation(var_name: &str, t: &Type) -> (r: String)
    ensures
        r@ == spec_type_validation(var_name@, *t),
    decreases *t, 0int,
{
    match t {
        Type::Primitive(k) => {
            let tag: &str = match k {
                PrimitiveKind::Text => "string",
                PrimitiveKind::Int => "number",
                PrimitiveKind::UnsignedInt => "number",
                PrimitiveKind::Float => "number",
                PrimitiveKind::Boolean => "boolean",
            };
            let mut out = String::new();
            out.append("if (typeof ");
            out.append(var_name);
            out.append(" !== '");
            out.append(tag);
            out.append("') {\nthrow new Error(`Error parsing ");
            out.append(var_name);
            out.append(": expected: ");
            out.append(tag);
            out.append(", found: ${typeof ");
            out.append(var_name);
            out.append("}`);\n}\n");
            proof {
                assert(out@ =~= spec_type_validation(var_name@, *t));
            }
            out
        },
        Type::Named(n) => {
            let mut out = String::new();
            out.append(n.as_str());
            out.append(".validate(");
            out.append(var_name);
            out.append(");\n");
            proof {
                assert(out@ =~= spec_type_validation(var_name@, *t));
            }
            out
        },
        Type::Array(inner) => array_validation(var_name, &**inner),
        Type::Tuple(ms) => {
            proof {
                assert(decreases_to!(*t => (*t)->Tuple_0));
                assert(decreases_to!((*t)->Tuple_0 => (*t)->Tuple_0@));
            }
            tuple_validation(var_name, ms)
        },
        Type::Optional(inner) => {
            let inner_validation = type_validation(var_name, &**inner);
            let mut out = String::new();
            out.append("if (");
            out.append(var_name);
            out.append(" !== null && ");
            out.append(var_name);
            out.append(" !== undefined) {\n");
            out.append(inner_validation.as_str());
            out.append("}\n");
            proof {
                assert(out@ =~= spec_type_validation(var_name@, *t));
            }
            out
        },
    }
}

/// Emits the validation fragment for an array-typed variable: shape check,
/// then a loop validating every element against the item type.
pub fn array_validation(var_name: &str, item_type: &Type) -> (r: String)
    ensures
        r@ == spec_array_validation(var_name@, *item_type),
    decreases *item_type, 1int,
{
    let mut elem_path = var_name.to_string();
    elem_path.append("[i]");
    let item_validation = type_validation(elem_path.as_str(), item_type);
    let mut out = String::new();
    out.append("if (!Array.isArray(");
    out.append(var_name);
    out.append(")) {\nthrow new Error(`Error parsing ");
    out.append(var_name);
    out.append(": expected: Array, found: ${typeof ");
    out.append(var_name);
    out.append("}`);\n}\nfor (let i = 0; i < ");
    out.append(var_name);
    out.append(".length; i++) {\n");
    out.append(item_validation.as_str());
    out.append("}\n");
    proof {
        assert(out@ =~= spec_array_validation(var_name@, *item_type));
    }
    out
}

/// Emits the validation fragment for a tuple-typed variable: shape check,
/// exact length check, then one validation per position.
pub fn tuple_validation(var_name: &str, members: &Vec<Type>) -> (r: String)
    ensures
        r@ == spec_tuple_validation(var_name@, members@),
    decreases members@, members@.len() as int + 1,
{
    let len_text = usize_to_string(members.len());
    let mut checks = String::new();
    let mut i: usize = 0;
    while i < members.len()
        invariant
            0 <= i <= members@.len(),
            checks@ == spec_tuple_member_validations(var_name@, members@, i as int),
        decreases members@.len() - i,
    {
        let mut member_path = var_name.to_string();
        member_path.append("[");
        let idx = usize_to_string(i);
        member_path.append(idx.as_str());
        member_path.append("]");
        proof {
            assert(decreases_to!(members@ => members@[i as int]));
            assert(member_path@ =~= var_name@ + "["@ + spec_dec(i as nat) + "]"@);
        }
        let part = type_validation(member_path.as_str(), &members[i]);
        checks.append(part.as_str());
        proof {
            assert(checks@ =~= spec_tuple_member_validations(var_name@, members@, i + 1));
        }
        i += 1;
    }
    let mut out = String::new();
    out.append("if (!Array.isArray(");
    out.append(var_name);
    out.append(")) {\nthrow new Error(`Error parsing ");
    out.append(var_name);
    out.append(": expected: Array, found: ${typeof ");
    out.append(var_name);
    out.append("}`);\n}\nif (");
    out.append(var_name);
    out.append(".length !== ");
    out.append(len_text.as_str());
    out.append(") {\nthrow new Error(`Error parsing ");
    out.append(var_name);
    out.append(": expected: Array of length ");
    out.append(len_text.as_str());
    out.append(", found: length ${");
    out.append(var_name);
    out.append(".length}`);\n}\n");
    out.append(checks.as_str());
    proof {
        assert(out@ =~= spec_tuple_validation(var_name@, members@));
    }
    out
}

/// The validation fragment for one named field: a missing-field check
/// (skipped for optional fields, whose absence is allowed), then the
/// field's own type validation at `var.key`.
pub open spec fn spec_field_validation(var: Seq<char>, f: NamedField) -> Seq<char> {
    let key = spec_field_key(f);
    let presence = if f.type_ is Optional {
        Seq::<char>::empty()
    } else {
        "if ("@ + var + "."@ + key + " === undefined) {\nthrow new Error(`Error parsing "@ + var
            + ": missing required field: "@ + key + "`);\n}\n"@
    };
    presence + spec_type_validation(var + "."@ + key, f.type_)
}

/// The validation fragments of the first `n` named fields, in declaration
/// order.
pub open spec fn spec_named_field_validations(var: Seq<char>, fields: Seq<NamedField>, n: int) -> Seq<char>
    decreases n,
{
    if n <= 0 {
        Seq::empty()
    } else {
        spec_named_field_validations(var, fields, n - 1) + spec_field_validation(
            var,
            fields[n - 1],
        )
    }
}

/// Emits the validation fragments of a record's fields: each required field
/// must be present, and each field's value must match its declared type.
pub fn named_field_validations(var_name: &str, fields: &Vec<NamedField>) -> (r: String)
    ensures
        r@ == spec_named_field_validations(var_name@, fields@, fields@.len() as int),
{
    let mut out = String::new();
    let mut i: usize = 0;
    while i < fields.len()
        invariant
            0 <= i <= fields@.len(),
            out@ == spec_named_field_validations(var_name@, fields@, i as int),
        decreases fields@.len() - i,
    {
        let key = field_key(&fields[i]);
        let mut field_path = var_name.to_string();
        field_path.append(".");
        field_path.append(key.as_str());
        if !matches!(&fields[i].type_, Type::Optional(_)) {
            out.append("if (");
            out.append(field_path.as_str());
            out.append(" === undefined) {\nthrow new Error(`Error parsing ");
            out.append(var_name);
            out.append(": missing required field: ");
            out.append(key.as_str());
            out.append("`);\n}\n");
        }
        let tv = type_validation(field_path.as_str(), &fields[i].type_);
        out.append(tv.as_str());
        proof {
            assert(out@ =~= spec_named_field_validations(var_name@, fields@, i + 1));
        }
        i += 1;
    }
    out
}

} // verus!
