//! The shared memory that agents read and write through the `tama_mem_*` tools.
use vstd::prelude::*;
use vstd::string::StringExecFns;

use crate::json::{
    array_to_text, json_array_text, json_parse_array, json_parse_value, json_string_value,
    parse_array, parse_value, string_value,
};
use crate::strmap::StrMap;

verus! {

/// The shared key-value store.
pub type Store = StrMap;

/// Empties the store (done at the start of each run).
pub fn clear(store: &mut Store)
    ensures
        final(store)@ == Map::<Seq<char>, Seq<char>>::empty(),
{
    store.clear();
}

/// Stores `value` under `key`.
pub fn set(store: &mut Store, key: &str, value: &str)
    ensures
        final(store)@ == old(store)@.insert(key@, value@),
{
    store.set(key, value);
}

/// Removes `key` from the store.
pub fn delete(store: &mut Store, key: &str)
    ensures
        final(store)@ == old(store)@.remove(key@),
{
    store.remove(key);
}

/// The value stored under `key`, or `None` if it is not set.
pub fn get_opt(store: &Store, key: &str) -> (r: Option<String>)
    ensures
        match r {
            Some(v) => store@.contains_key(key@) && store@[key@] == v@,
            None => !store@.contains_key(key@),
        },
{
    store.get(key)
}

/// The text `get` answers for a key that holds nothing.
pub open spec fn missing_value_text(key: Seq<char>) -> Seq<char> {
    "[no value stored for key '"@ + key + "']"@
}

/// The value stored under `key`, or a note saying that nothing is stored.
pub fn get(store: &Store, key: &str) -> (r: String)
    ensures
        r@ == if store@.contains_key(key@) {
            store@[key@]
        } else {
            missing_value_text(key@)
        },
{
    match store.get(key) {
        Some(v) => v,
        None => {
            let mut s = String::from_str("[no value stored for key '");
            s.append(key);
            s.append("']");
            s
        },
    }
}

/// The JSON value an appended item stands for: the item parsed as JSON, or
/// the item as a JSON string when it is not valid JSON.
pub open spec fn item_value(item: Seq<char>) -> serde_json::Value {
    match json_parse_value(item) {
        Some(v) => v,
        None => json_string_value(item),
    }
}

/// The array stored under `key`: the stored text parsed as a JSON array, or
/// an empty array when nothing is stored or the text is not an array.
pub open spec fn stored_array(store: Map<Seq<char>, Seq<char>>, key: Seq<char>) -> Seq<
    serde_json::Value,
> {
    if store.contains_key(key) {
        match json_parse_array(store[key]) {
            Some(a) => a,
            None => Seq::empty(),
        }
    } else {
        Seq::empty()
    }
}

/// Appends `item` to the JSON array stored at `key`, creating the array when
/// the key holds none, stores the serialised array and returns it.
pub fn append(store: &mut Store, key: &str, item: &str) -> (r: String)
    ensures
        r@ == json_array_text(stored_array(old(store)@, key@).push(item_value(item@))),
        final(store)@ == old(store)@.insert(key@, r@),
{
    let item_val = match parse_value(item) {
        Some(v) => v,
        None => string_value(item),
    };
    let mut arr: Vec<serde_json::Value> = match store.get(key) {
        Some(text) => match parse_array(text.as_str()) {
            Some(a) => a,
            None => Vec::new(),
        },
        None => Vec::new(),
    };
    arr.push(item_val);
    let serialized = array_to_text(&arr);
    store.set(key, serialized.as_str());
    serialized
}

/// Reading gives back what was written: after `set(key, value)` the key
/// holds `value`, and every other key holds what it held before.
pub proof fn law_get_after_set(
    store: Map<Seq<char>, Seq<char>>,
    key: Seq<char>,
    value: Seq<char>,
    other: Seq<char>,
)
    ensures
        store.insert(key, value).contains_key(key),
        store.insert(key, value)[key] == value,
        other != key ==> store.insert(key, value).contains_key(other) == store.contains_key(
            other,
        ),
        other != key && store.contains_key(other) ==> store.insert(key, value)[other]
            == store[other],
{
}

/// A deleted key holds nothing, and every other key holds what it held
/// before.
pub proof fn law_get_after_delete(
    store: Map<Seq<char>, Seq<char>>,
    key: Seq<char>,
    other: Seq<char>,
)
    ensures
        !store.remove(key).contains_key(key),
        other != key ==> store.remove(key).contains_key(other) == store.contains_key(other),
        other != key && store.contains_key(other) ==> store.remove(key)[other] == store[other],
{
}

} // verus!
