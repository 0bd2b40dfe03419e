//! Rendering of schema type expressions as TypeScript type text, and of
//! named fields as record member lines. Shared by the type emitter and the
//! validator emitter.

use vstd::prelude::*;
use vstd::string::StringExecFns;

use crate::inflect::{inflect, inflected, Inflection};
use crate::schema::{NamedField, PrimitiveKind, Type};

verus! {

/// The TypeScript name of a primitive kind. All numeric kinds erase to
/// `number`.
pub open spec fn spec_primitive_ts(k: PrimitiveKind) -> Seq<char> {
    match k {
        PrimitiveKind::Text => "string"@,
        PrimitiveKind::Int => "number"@,
        PrimitiveKind::UnsignedInt => "number"@,
        PrimitiveKind::Float => "number"@,
        PrimitiveKind::Boolean => "boolean"@,
    }
}

/// The TypeScript type text of a schema type expression.
pub open spec fn spec_ts_type(t: Type) -> Seq<char>
    decreases t, 0int,
{
    match t {
        Type::Primitive(k) => spec_primitive_ts(k),
        Type::Named(n) => n@,
        Type::Array(inner) => if *inner is Optional {
            "("@ + spec_ts_type(*inner) + ")[]"@
        } else {
            spec_ts_type(*inner) + "[]"@
        },
        Type::Tuple(ms) => "["@ + spec_ts_type_list(ms@, ms@.len() as int) + "]"@,
        Type::Optional(inner) => spec_ts_type(*inner) + " | undefined"@,
    }
}

/// The first `n` member types of a tuple, rendered and joined with `", "`.
pub open spec fn spec_ts_type_list(ms: Seq<Type>, n: int) -> Seq<char>
    decreases ms, n,
        when 0 <= n <= ms.len()
{
    if n <= 0 {
        Seq::empty()
    } else if n == 1 {
        spec_ts_type(ms[0])
    } else {
        spec_ts_type_list(ms, n - 1) + ", "@ + spec_ts_type(ms[n - 1])
    }
}

/// The TypeScript type text of a schema type expression.
pub fn to_ts_type(t: &Type) -> (r: String)
    ensures
        r@ == spec_ts_type(*t),
    decreases *t,
{
    match t {
        Type::Primitive(k) => match k {
            PrimitiveKind::Text => "string".to_string(),
            PrimitiveKind::Int => "number".to_string(),
            PrimitiveKind::UnsignedInt => "number".to_string(),
            PrimitiveKind::Float => "number".to_string(),
            PrimitiveKind::Boolean => "boolean".to_string(),
        },
        Type::Named(n) => n.clone(),
        Type::Array(inner) => {
            let mut s = String::new();
            if matches!(&**inner, Type::Optional(_)) {
                s.append("(");
                let it = to_ts_type(&**inner);
                s.append(it.as_str());
                s.append(")[]");
            } else {
                let it = to_ts_type(&**inner);
                s.append(it.as_str());
                s.append("[]");
            }
            proof {
                assert(s@ =~= spec_ts_type(*t));
            }
            s
        },
        Type::Tuple(ms) => {
            let mut s = String::new();
            s.append("[");
            let mut i: usize = 0;
            while i < ms.len()
                invariant
                    0 <= i <= ms@.len(),
                    s@ == "["@ + spec_ts_type_list(ms@, i as int),
                    *t == Type::Tuple(*ms),
                decreases ms@.len() - i,
            {
                if i > 0 {
                    s.append(", ");
                }
                proof {
                    assert(decreases_to!(*t => (*t)->Tuple_0));
                    assert(decreases_to!((*t)->Tuple_0 => (*t)->Tuple_0@));
                    assert(decreases_to!((*t)->Tuple_0@ => (*t)->Tuple_0@[i as int]));
                    assert(decreases_to!(*t => ms@[i as int]));
                }
                let part = to_ts_type(&ms[i]);
                s.append(part.as_str());
                proof {
                    assert(s@ =~= "["@ + spec_ts_type_list(ms@, i + 1));
                }
                i += 1;
            }
            s.append("]");
            proof {
                assert(s@ =~= spec_ts_type(*t));
            }
            s
        },
        Type::Optional(inner) => {
            let mut s = to_ts_type(&**inner);
            s.append(" | undefined");
            s
        },
    }
}

/// The wire form of a field's name.
pub open spec fn spec_field_key(f: NamedField) -> Seq<char> {
    inflected(f.inflection, f.name@)
}

/// The wire form of a field's name.
pub fn field_key(f: &NamedField) -> (r: String)
    ensures
        r@ == spec_field_key(*f),
{
    inflect(f.name.as_str(), f.inflection)
}

/// One emitted record member line: `  key: type;`.
pub open spec fn spec_named_field_line(f: NamedField) -> Seq<char> {
    "  "@ + spec_field_key(f) + ": "@ + spec_ts_type(f.type_) + ";\n"@
}

/// The record member lines of the first `n` fields, in declaration order.
pub open spec fn spec_named_fields(fields: Seq<NamedField>, n: int) -> Seq<char>
    decreases n,
{
    if n <= 0 {
        Seq::empty()
    } else {
        spec_named_fields(fields, n - 1) + spec_named_field_line(fields[n - 1])
    }
}

/// The record member lines of a field list, keyed by each field's inflected
/// name, in declaration order.
pub fn named_fields(fields: &Vec<NamedField>) -> (r: String)
    ensures
        r@ == spec_named_fields(fields@, fields@.len() as int),
{
    let mut s = String::new();
    let mut i: usize = 0;
    while i < fields.len()
        invariant
            0 <= i <= fields@.len(),
            s@ == spec_named_fields(fields@, i as int),
        decreases fields@.len() - i,
    {
        let key = field_key(&fields[i]);
        let ty = to_ts_type(&fields[i].type_);
        s.append("  ");
        s.append(key.as_str());
        s.append(": ");
        s.append(ty.as_str());
        s.append(";\n");
        proof {
            assert(s@ =~= spec_named_fields(fields@, i + 1));
        }
        i += 1;
    }
    s
}

} // verus!
