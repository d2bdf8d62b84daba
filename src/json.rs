//! JSON values that the library carries through without looking inside.

use vstd::prelude::*;

verus! {

/// A JSON value of serde_json: a configuration value, passed through intact.
#[verifier::external_type_specification]
#[verifier::external_body]
pub struct ExValue(serde_json::Value);

} // verus!
