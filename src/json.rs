//! The dynamic JSON value that callers supply as field contents. The library
//! never looks inside one: it only carries it into a patch.

use vstd::prelude::*;

verus! {

/// `serde_json::Value`, carried as an opaque value.
#[verifier::external_type_specification]
#[verifier::external_body]
pub struct ExJsonValue(serde_json::Value);

} // verus!
