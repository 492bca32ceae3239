//! The opaque JSON value that stands for one server specification.
//!
//! The library never looks inside a specification: it is carried through
//! byte for byte, so `serde_json::Value` is declared here as an opaque type
//! and the only operation taken from it is cloning.

use vstd::prelude::*;

verus! {

/// Declares `serde_json::Value` so that signatures and specifications can
/// carry a server specification as an opaque value.
#[verifier::external_type_specification]
#[verifier::external_body]
pub struct ExValue(serde_json::Value);

/// Relies on `serde_json::Value::clone` (a derived, structural clone):
/// the result is the same value as the argument.
#[verifier::external_body]
pub(crate) fn clone_value(v: &serde_json::Value) -> (r: serde_json::Value)
    ensures
        r == *v,
{
    v.clone()
}

} // verus!
