//! JSON values that pass through the store without being looked into.

use vstd::prelude::*;

verus! {

/// A JSON value of any kind, opaque to the verifier.
#[verifier::external_type_specification]
#[verifier::external_body]
pub struct ExJsonValue(serde_json::Value);

/// A JSON object as the parser built it, opaque to the verifier.
#[verifier::external_type_specification]
#[verifier::external_body]
#[verifier::reject_recursive_types(K)]
#[verifier::reject_recursive_types(V)]
pub struct ExJsonMap<K, V>(serde_json::Map<K, V>);

/// The error of the JSON serializer, opaque to the verifier.
#[verifier::external_type_specification]
#[verifier::external_body]
pub struct ExJsonError(serde_json::Error);

/// A JSON object handed in as a value to store.
#[derive(Debug, PartialEq)]
pub struct JsonObject {
    /// The object's members.
    pub members: serde_json::Map<String, serde_json::Value>,
}

/// The compact JSON text of an object, which stands for what the object
/// holds: `None` where the serializer fails on it.
pub uninterp spec fn object_text(members: serde_json::Map<String, serde_json::Value>) -> Option<
    Seq<char>,
>;

/// What serializing an object came to: its text, or nothing.
pub open spec fn text_of(serialized: Result<String, serde_json::Error>) -> Option<Seq<char>> {
    match serialized {
        Ok(text) => Some(text@),
        Err(_) => None,
    }
}

/// `serde_json::to_string` on a JSON object: its compact text, or the
/// serializer's error. The outcome depends on the object alone and is named
/// [`object_text`].
#[verifier::external_body]
pub(crate) fn to_text(object: &JsonObject) -> (r: Result<String, serde_json::Error>)
    ensures
        text_of(r) == object_text(object.members),
{
    serde_json::to_string(&object.members)
}

} // verus!
