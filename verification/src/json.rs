//! Opaque JSON payloads. The library carries them through and rearranges their
//! top-level entries; it never looks inside a value.

use vstd::prelude::*;

verus! {

/// `serde_json::Value`, carried as an opaque value.
#[verifier::external_type_specification]
#[verifier::external_body]
pub struct ExJsonValue(serde_json::Value);

/// The top-level entries of a JSON value, names and values in the object's
/// own order, if the value is an object.
pub uninterp spec fn spec_object_entries(value: serde_json::Value) -> Option<
    Seq<(Seq<char>, serde_json::Value)>,
>;

/// The JSON object made of a list of entries.
pub uninterp spec fn spec_object(entries: Seq<(Seq<char>, serde_json::Value)>) -> serde_json::Value;

/// The names and values of a list of entries.
pub open spec fn entry_views(entries: Seq<(String, serde_json::Value)>) -> Seq<
    (Seq<char>, serde_json::Value),
> {
    entries.map_values(|e: (String, serde_json::Value)| (e.0@, e.1))
}

/// `Clone` of `serde_json::Value`: a copy equal to the value.
pub assume_specification[ <serde_json::Value as Clone>::clone ](
    value: &serde_json::Value,
) -> (copy: serde_json::Value)
    ensures
        copy == *value,
;

/// `serde_json::Value::as_object`, its entries handed out as pairs in the map's
/// own order, or `None` for a value that is no object: the entries of the
/// value.
#[verifier::external_body]
pub(crate) fn object_entries(value: &serde_json::Value) -> (entries: Option<
    Vec<(String, serde_json::Value)>,
>)
    ensures
        match entries {
            Some(own) => spec_object_entries(*value) == Some(entry_views(own@)),
            None => spec_object_entries(*value).is_none(),
        },
{
    value.as_object().map(|m| m.iter().map(|(k, v)| (k.clone(), v.clone())).collect())
}

/// `serde_json::Map::from_iter` wrapped in `Value::Object`: the object made of
/// the entries.
#[verifier::external_body]
pub(crate) fn object_from_entries(entries: Vec<(String, serde_json::Value)>) -> (object:
    serde_json::Value)
    ensures
        object == spec_object(entry_views(entries@)),
{
    serde_json::Value::Object(entries.into_iter().collect())
}

} // verus!
