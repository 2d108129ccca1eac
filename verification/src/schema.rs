//! JSON Schema as a judge of parsed payloads.

use vstd::prelude::*;
use crate::json::{json_of_value, JsonView};

verus! {

/// Whether `schema` is a JSON Schema that `jsonschema` can build a
/// validator from, with its default options and without fetching any
/// schema from outside, and that validator accepts `instance`.
pub uninterp spec fn schema_admits(schema: JsonView, instance: JsonView) -> bool;

/// `jsonschema::validator_for` on `schema`, then `Validator::validate` on
/// `instance`: `Ok` exactly when the schema is admitted as one and the
/// instance satisfies it. The error carries the words of whichever step
/// failed; nothing is claimed of them.
#[verifier::external_body]
pub(crate) fn check_schema(schema: &serde_json::Value, instance: &serde_json::Value) -> (checked:
    Result<(), String>)
    ensures
        checked is Ok <==> schema_admits(json_of_value(*schema), json_of_value(*instance)),
{
    let validator = jsonschema::validator_for(schema).map_err(|error| error.to_string())?;
    validator.validate(instance).map_err(|error| error.to_string())
}

} // verus!
