use vstd::prelude::*;

verus! {

/// Declares `serde_json::Value`, a JSON document, so that parameters and
/// replies can carry one; the bridge never looks inside it.
#[verifier::external_type_specification]
#[verifier::external_body]
pub struct ExValue(serde_json::Value);

} // verus!
