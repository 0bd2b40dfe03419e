//! The TypeScript type emitter: renders each schema entity as a type
//! declaration.

pub mod enum_type;
pub mod untagged_enum_type;

use vstd::prelude::*;
use vstd::string::StringExecFns;

use crate::schema::Struct;
use crate::ts_type::{named_fields, spec_named_fields};

verus! {

/// The emitted type declaration of a struct entity.
pub open spec fn spec_emit_struct_type(s: Struct) -> Seq<char> {
    "\nexport type "@ + s.name@ + " = {\n"@ + spec_named_fields(
        s.fields@,
        s.fields@.len() as int,
    ) + "};\n"@
}

/// Emits the type declaration of a struct entity: a record keyed by each
/// field's inflected name, in declaration order.
pub fn emit_struct_type(s: &Struct) -> (r: String)
    ensures
        r@ == spec_emit_struct_type(*s),
{
    let fields = named_fields(&s.fields);
    let mut out = String::new();
    out.append("\nexport type ");
    out.append(s.name.as_str());
    out.append(" = {\n");
    out.append(fields.as_str());
    out.append("};\n");
    proof {
        assert(out@ =~= spec_emit_struct_type(*s));
    }
    out
}

} // verus!
