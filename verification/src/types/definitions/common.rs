use vstd::prelude::*;

verus! {

/// Lets `serde_json::Value` stand in signatures and fields; its contents stay opaque.
#[verifier::external_type_specification]
#[verifier::external_body]
pub struct ExJsonValue(serde_json::Value);

/// `Clone` of `serde_json::Value`.
///
/// Trusted: `Value` derives `Clone` (its `Map` clones the inner map), so the
/// copy is the same JSON value.
pub assume_specification[ <serde_json::Value as Clone>::clone ](v: &serde_json::Value) -> (r: serde_json::Value)
    ensures
        r == *v,
;

/// Common type definitions of the market data schema, held as a JSON value.
#[derive(Debug)]
pub struct CommonTypeDefinitions(pub serde_json::Value);

impl Clone for CommonTypeDefinitions {
    fn clone(&self) -> (r: Self)
        ensures
            r.0 == self.0,
    {
        CommonTypeDefinitions(self.0.clone())
    }
}

impl CommonTypeDefinitions {
    /// Wraps a JSON value.
    pub fn from(value: serde_json::Value) -> (r: CommonTypeDefinitions)
        ensures
            r.0 == value,
    {
        CommonTypeDefinitions(value)
    }

    /// The JSON value.
    pub fn as_value(&self) -> (r: &serde_json::Value)
        ensures
            *r == self.0,
    {
        &self.0
    }

    /// The JSON value, taken out.
    pub fn into_value(self) -> (r: serde_json::Value)
        ensures
            r == self.0,
    {
        self.0
    }
}

} // verus!
