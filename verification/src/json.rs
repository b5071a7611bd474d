use vstd::prelude::*;

verus! {

/// `serde_json::Value`: a JSON document of any shape. The records of this
/// library hold such a value where the API fixes no shape, and hand it on
/// without looking into it.
#[verifier::external_type_specification]
#[verifier::external_body]
pub struct OpaqueJson(serde_json::Value);

} // verus!
