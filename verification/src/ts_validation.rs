//! The validator emitter: for each schema entity it emits a namespaced
//! `validate` function that re-derives the entity's type from untyped input,
//! failing loudly on any shape deviation.

pub mod enum_type;
pub mod untagged;
pub mod validation;

use vstd::prelude::*;
use vstd::string::StringExecFns;

use crate::schema::Struct;
use crate::ts_validation::validation::{named_field_validations, spec_named_field_validations};

verus! {

/// The shared runtime helper emitted once per destination, ahead of all
/// validators.
pub open spec fn spec_validation_prefix() -> Seq<char> {
    "export function isRecord(input: unknown): input is Record<string, unknown> {\n  return typeof input === 'object' && input !== null;\n}\n"@
}

/// Emits the shared runtime helper that validators use to test for
/// record-shaped input.
pub fn validation_prefix() -> (r: String)
    ensures
        r@ == spec_validation_prefix(),
{
    "export function isRecord(input: unknown): input is Record<string, unknown> {\n  return typeof input === 'object' && input !== null;\n}\n".to_string()
}

/// A namespaced validator: `export namespace {name} { export function
/// validate(input: any): {name} { {body} } }`.
pub open spec fn spec_validation_namespace(name: Seq<char>, body: Seq<char>) -> Seq<char> {
    "export namespace "@ + name + " {\nexport function validate(input: any): "@ + name
        + " {\n"@ + body + "\n}\n}\n"@
}

/// Wraps a validator body in the entity's namespace, exposing it as the
/// entity's `validate` operation.
pub fn validation_namespace(name: &str, validation_impl: &str) -> (r: String)
    ensures
        r@ == spec_validation_namespace(name@, validation_impl@),
{
    let mut out = String::new();
    out.append("export namespace ");
    out.append(name);
    out.append(" {\nexport function validate(input: any): ");
    out.append(name);
    out.append(" {\n");
    out.append(validation_impl);
    out.append("\n}\n}\n");
    proof {
        assert(out@ =~= spec_validation_namespace(name@, validation_impl@));
    }
    out
}

/// The emitted validator of a struct entity: a record check, then one
/// validation per field in declaration order.
pub open spec fn spec_struct_validation(s: Struct) -> Seq<char> {
    spec_validation_namespace(
        s.name@,
        "if (!isRecord(input)) {\nthrow new Error(`Error parsing "@ + s.name@
            + ": expected: Record, found: ${typeof input}`);\n}\n"@ + spec_named_field_validations(
            "input"@,
            s.fields@,
            s.fields@.len() as int,
        ) + "return input as "@ + s.name@ + ";"@,
    )
}

/// Emits the validator of a struct entity.
pub fn struct_validation(s: &Struct) -> (r: String)
    ensures
        r@ == spec_struct_validation(*s),
{
    let fields = named_field_validations("input", &s.fields);
    let mut body = String::new();
    body.append("if (!isRecord(input)) {\nthrow new Error(`Error parsing ");
    body.append(s.name.as_str());
    body.append(": expected: Record, found: ${typeof input}`);\n}\n");
    body.append(fields.as_str());
    body.append("return input as ");
    body.append(s.name.as_str());
    body.append(";");
    let r = validation_namespace(s.name.as_str(), body.as_str());
    proof {
        assert(body@ =~= "if (!isRecord(input)) {\nthrow new Error(`Error parsing "@ + s.name@
            + ": expected: Record, found: ${typeof input}`);\n}\n"@ + spec_named_field_validations(
            "input"@,
            s.fields@,
            s.fields@.len() as int,
        ) + "return input as "@ + s.name@ + ";"@);
    }
    r
}

} // verus!
