//! JSON objects of `serde_json`, as far as the engine touches them.
//!
//! A configuration and a choice fragment travel as `serde_json::Value`. The
//! engine never looks inside a field's value: it reads which keys an object
//! holds and carries the values through. Nothing in this file is proved; each
//! item says what it takes on trust from `serde_json`.

use vstd::prelude::*;

verus! {

/// `serde_json::Value`, opaque to the verifier.
#[verifier::external_type_specification]
#[verifier::external_body]
pub struct ExJsonValue(serde_json::Value);

/// `serde_json::Map`, opaque to the verifier.
#[verifier::external_type_specification]
#[verifier::external_body]
#[verifier::reject_recursive_types(K)]
#[verifier::reject_recursive_types(V)]
pub struct ExJsonMap<K, V>(serde_json::Map<K, V>);

/// The entries that a JSON object holds, by key.
pub uninterp spec fn map_entries(m: serde_json::Map<String, serde_json::Value>) -> Map<
    Seq<char>,
    serde_json::Value,
>;

/// The fields of a JSON value that is an object; `None` for any other value.
pub uninterp spec fn object_fields(v: serde_json::Value) -> Option<
    Map<Seq<char>, serde_json::Value>,
>;

/// `Value::clone`: a copy that equals the value it was made from.
pub assume_specification[ <serde_json::Value as Clone>::clone ](v: &serde_json::Value) -> (copy:
    serde_json::Value)
    ensures
        copy == *v,
;

/// `Value::as_object`: the map inside an object, `None` for any other value.
pub assume_specification[ serde_json::Value::as_object ](v: &serde_json::Value) -> (r: Option<
    &serde_json::Map<String, serde_json::Value>,
>)
    ensures
        match r {
            Some(m) => object_fields(*v) == Some(map_entries(*m)),
            None => object_fields(*v) is None,
        },
;

/// `Value::as_object_mut`: the map inside an object, borrowed for writing, so
/// that the value afterwards is the object with whatever the map then holds;
/// `None`, and the value untouched, for any other value.
pub assume_specification[ serde_json::Value::as_object_mut ](v: &mut serde_json::Value) -> (r:
    Option<&mut serde_json::Map<String, serde_json::Value>>)
    ensures
        match r {
            Some(m) => object_fields(*old(v)) == Some(map_entries(*m))
                && object_fields(*final(v)) == Some(map_entries(*final(m))),
            None => object_fields(*old(v)) is None && *final(v) == *old(v),
        },
;

/// `Map::insert`: the key holds the new value afterwards and every other key
/// is untouched; the value that the key held before is handed back.
pub assume_specification[ serde_json::Map::<String, serde_json::Value>::insert ](
    m: &mut serde_json::Map<String, serde_json::Value>,
    k: String,
    v: serde_json::Value,
) -> (prev: Option<serde_json::Value>)
    ensures
        map_entries(*final(m)) == map_entries(*old(m)).insert(k@, v),
        prev == (if map_entries(*old(m)).contains_key(k@) {
            Some(map_entries(*old(m))[k@])
        } else {
            None
        }),
;

/// `Map::iter`, with each key and value cloned: every entry of the map, each
/// once. Nothing is said of the order in which they come.
#[verifier::external_body]
pub(crate) fn entries_of(m: &serde_json::Map<String, serde_json::Value>) -> (items: Vec<
    (String, serde_json::Value),
>)
    ensures
        forall|i: int| 0 <= i < items@.len() ==> {
            &&& map_entries(*m).contains_key(#[trigger] items@[i].0@)
            &&& map_entries(*m)[items@[i].0@] == items@[i].1
        },
        forall|i: int, j: int| 0 <= i < j < items@.len() ==> items@[i].0@ != items@[j].0@,
        forall|k: Seq<char>| #[trigger] map_entries(*m).contains_key(k) ==> exists|i: int|
            0 <= i < items@.len() && #[trigger] items@[i].0@ == k,
{
    m.iter().map(|(k, v)| (k.clone(), v.clone())).collect()
}

} // verus!
