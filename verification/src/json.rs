//! JSON documents carried through the services unchanged.
use vstd::prelude::*;


verus! {

/// `serde_json::Value`, an opaque JSON document.
#[verifier::external_type_specification]
#[verifier::external_body]
pub struct ExJsonValue(serde_json::Value);

/// `<serde_json::Value as Clone>::clone`, which is derived: the copy equals
/// the value it was made from.
#[verifier::external_body]
pub(crate) fn clone_json(v: &serde_json::Value) -> (r: serde_json::Value)
    ensures
        r == *v,
{
    v.clone()
}

/// Copies an optional JSON document.
pub fn clone_opt_json(v: &Option<serde_json::Value>) -> (r: Option<serde_json::Value>)
    ensures
        r == *v,
{
    match v {
        Some(j) => Some(clone_json(j)),
        None => None,
    }
}

} // verus!
