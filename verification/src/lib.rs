pub mod analyze;
pub mod parse;
pub mod render;
pub mod runtime;
pub mod schema;
pub mod text;

use vstd::prelude::*;

use crate::parse::{parse_schema, schema_error_reported, schema_parsed_ok, AttributeArgument,
    RawStruct, SchemaError};
use crate::render::{render_props, surface_renders, GeneratedSurface};
use crate::schema::ComponentSchema;

verus! {

/// The generator's entry point: validates a raw component definition and,
/// when it is valid, emits the complete generated surface — the
/// optional-value container, the consumption contract, the per-field
/// builder operations, and the shorthand invocation form. Fails exactly on
/// the first schema violation: positional fields, then a non-type generic
/// parameter, then conflicting reactivity annotations on a field.
pub fn component(args: AttributeArgument, input: RawStruct) -> (r: Result<
    GeneratedSurface,
    SchemaError,
>)
    ensures
        match r {
            Ok(surface) => exists|s: ComponentSchema|
                #[trigger] schema_parsed_ok(s, args, input) && surface_renders(surface, s),
            Err(e) => schema_error_reported(e, input),
        },
{
    let schema = match parse_schema(args, input) {
        Ok(s) => s,
        Err(e) => {
            return Err(e);
        },
    };
    let ghost s0 = schema;
    let surface = render_props(schema);
    proof {
        assert(schema_parsed_ok(s0, args, input) && surface_renders(surface, s0));
    }
    Ok(surface)
}

} // verus!
