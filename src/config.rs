use std::collections::BTreeMap;
use vstd::prelude::*;

verus! {

/// serde_json::Value, carried through unread: a setting's structured value.
#[verifier::external_type_specification]
#[verifier::external_body]
pub struct ExJsonValue(serde_json::Value);

/// A configuration update: setting names, in key order, with their
/// structured values.
#[derive(Clone, Debug, PartialEq)]
pub struct ServerConfig {
    pub settings: BTreeMap<String, serde_json::Value>,
}

} // verus!
