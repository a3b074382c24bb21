//! Overlaying a candidate choice on a configuration.

use vstd::prelude::*;
use crate::json::{entries_of, map_entries, object_fields};

verus! {

/// The fields of a configuration after a fragment has been laid over it: every
/// key of the fragment with the fragment's value, every other key of the
/// configuration with the configuration's value.
pub open spec fn overlay(
    config: Map<Seq<char>, serde_json::Value>,
    fragment: Map<Seq<char>, serde_json::Value>,
) -> Map<Seq<char>, serde_json::Value> {
    config.union_prefer_right(fragment)
}

/// What a configuration value becomes when a choice fragment is merged into
/// it: where both are objects, the object whose fields are the overlay; in
/// every other case the configuration as it was.
pub open spec fn merged_fields(
    config: serde_json::Value,
    fragment: serde_json::Value,
) -> Option<Map<Seq<char>, serde_json::Value>> {
    match (object_fields(config), object_fields(fragment)) {
        (Some(c), Some(f)) => Some(overlay(c, f)),
        (c, _) => c,
    }
}

/// Whether `merged` is what `config` becomes when `fragment` is merged into
/// it.
pub open spec fn is_merge_of(
    merged: serde_json::Value,
    config: serde_json::Value,
    fragment: serde_json::Value,
) -> bool {
    &&& object_fields(merged) == merged_fields(config, fragment)
    &&& object_fields(config) is None || object_fields(fragment) is None ==> merged == config
}

/// The keys of `items` from position `from` on.
spec fn keys_from(items: Seq<(String, serde_json::Value)>, from: int) -> Set<Seq<char>> {
    Set::new(|k: Seq<char>| exists|j: int| from <= j < items.len() && #[trigger] items[j].0@ == k)
}

/// Merges a choice fragment into a configuration value, in place: each field
/// that the fragment names replaces or adds that field of the configuration,
/// and no other field changes. A value that is no object, on either side,
/// leaves the configuration as it was.
pub fn merge_fragment(config: &mut serde_json::Value, fragment: &serde_json::Value)
    ensures
        is_merge_of(*final(config), *old(config), *fragment),
{
    let frag = match fragment.as_object() {
        Some(frag) => frag,
        None => { return ; },
    };
    let obj = match config.as_object_mut() {
        Some(obj) => obj,
        None => { return ; },
    };
    let ghost before = map_entries(*obj);
    let ghost named = map_entries(*frag);
    let mut items = entries_of(frag);
    let ghost all = items@;
    assert(keys_from(all, 0) =~= named.dom());
    assert(named.restrict(named.dom()) =~= named);
    while items.len() > 0
        invariant
            items@ =~= all.subrange(0, items@.len() as int),
            items@.len() <= all.len(),
            forall|i: int| 0 <= i < all.len() ==> {
                &&& named.contains_key(#[trigger] all[i].0@)
                &&& named[all[i].0@] == all[i].1
            },
            map_entries(*obj) =~= overlay(
                before,
                named.restrict(keys_from(all, items@.len() as int)),
            ),
        decreases items@.len(),
    {
        let ghost n = items@.len() as int;
        let (key, value) = items.pop().unwrap();
        assert(key@ == all[n - 1].0@ && value == all[n - 1].1);
        obj.insert(key, value);
        assert(keys_from(all, n - 1) =~= keys_from(all, n).insert(all[n - 1].0@));
        assert(map_entries(*obj) =~= overlay(before, named.restrict(keys_from(all, n - 1))));
    }
    assert(named.restrict(keys_from(all, 0)) =~= named);
}

/// Tries a choice out: the configuration that would result from taking it.
///
/// The merge is made on a copy. The configuration handed in is only read, and
/// is after the call what it was before.
pub fn speculate(config: &serde_json::Value, fragment: &serde_json::Value) -> (merged:
    serde_json::Value)
    ensures
        is_merge_of(merged, *config, *fragment),
{
    let mut merged = config.clone();
    merge_fragment(&mut merged, fragment);
    merged
}

/// After a merge of one object into another, a field that the fragment names
/// has the fragment's value, and any other field is there exactly if the
/// configuration had it, with the value that it had in the configuration.
pub proof fn lemma_merge_fields(
    merged: serde_json::Value,
    config: serde_json::Value,
    fragment: serde_json::Value,
    key: Seq<char>,
)
    requires
        is_merge_of(merged, config, fragment),
        object_fields(config) is Some,
        object_fields(fragment) is Some,
    ensures
        object_fields(merged) is Some,
        ({
            let after = object_fields(merged)->0;
            let before = object_fields(config)->0;
            let named = object_fields(fragment)->0;
            &&& named.contains_key(key) ==> after.contains_key(key) && after[key] == named[key]
            &&& !named.contains_key(key) ==> (after.contains_key(key) <==> before.contains_key(key))
            &&& !named.contains_key(key) && before.contains_key(key) ==> after[key] == before[key]
        }),
{
}

} // verus!
