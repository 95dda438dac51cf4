use vstd::prelude::*;

verus! {

#[verifier::external_type_specification]
#[verifier::external_body]
pub struct ExJsonValue(serde_json::Value);

#[verifier::external_type_specification]
#[verifier::external_body]
#[verifier::reject_recursive_types(K)]
#[verifier::reject_recursive_types(V)]
pub struct ExJsonMap<K, V>(serde_json::Map<K, V>);

/// The configuration document while it is being migrated: a JSON object.
pub type Document = serde_json::Map<String, serde_json::Value>;

/// The fields of a document, by name.
pub uninterp spec fn doc_fields(doc: serde_json::Map<String, serde_json::Value>) -> Map<
    Seq<char>,
    serde_json::Value,
>;

/// The JSON array of numbers that holds the given bytes, one number each.
pub uninterp spec fn json_bytes(bytes: Seq<u8>) -> serde_json::Value;

/// The JSON string holding the given text.
pub uninterp spec fn json_text(text: Seq<char>) -> serde_json::Value;

/// The JSON number holding the given integer.
pub uninterp spec fn json_u32(n: u32) -> serde_json::Value;

/// Relies on serde_json::Map::insert: afterwards `key` maps to `value` and
/// every other field is left as it was.
#[verifier::external_body]
pub(crate) fn insert_field(doc: &mut Document, key: String, value: serde_json::Value)
    ensures
        doc_fields(*final(doc)) == doc_fields(*old(doc)).insert(key@, value),
{
    doc.insert(key, value);
}

/// Relies on serde_json's `From<Vec<u8>> for Value`: an array with one number
/// per byte, in order.
#[verifier::external_body]
pub(crate) fn bytes_value(bytes: &Vec<u8>) -> (r: serde_json::Value)
    ensures
        r == json_bytes(bytes@),
{
    serde_json::Value::from(bytes.clone())
}

/// Relies on `serde_json::Value::String`.
#[verifier::external_body]
pub(crate) fn text_value(text: String) -> (r: serde_json::Value)
    ensures
        r == json_text(text@),
{
    serde_json::Value::String(text)
}

/// Relies on serde_json's `From<u32> for Value`: a JSON number.
#[verifier::external_body]
pub(crate) fn u32_value(n: u32) -> (r: serde_json::Value)
    ensures
        r == json_u32(n),
{
    serde_json::Value::from(n)
}

} // verus!
