//! JSON values as the bindings see them.
//!
//! Payloads are held as [`serde_json::Value`]. Contracts speak of a value through its
//! mathematical model, [`JsonModel`], which [`json_of`] assigns to it.

use vstd::prelude::*;

verus! {

/// The JSON document tree that contracts reason about.
///
/// A number is told apart only as far as these bindings read it: `Unsigned` is a
/// number that serde_json holds as an integer from 0 to `u64::MAX`, and `OtherNumber`
/// stands for every other number, negative or floating-point.
pub enum JsonModel {
    Null,
    Bool(bool),
    Unsigned(u64),
    OtherNumber,
    Text(Seq<char>),
    List(Seq<JsonModel>),
    Object(Map<Seq<char>, JsonModel>),
}

/// `serde_json::Value`, taken as an opaque type: nothing is known of a value but
/// what the functions of this module state of it.
#[verifier::external_type_specification]
#[verifier::external_body]
pub struct ExValue(serde_json::Value);

/// `serde_json::Map`, the map behind a JSON object, taken as an opaque type.
#[verifier::external_type_specification]
#[verifier::external_body]
#[verifier::reject_recursive_types(K)]
#[verifier::reject_recursive_types(V)]
pub struct ExObjectMap<K, V>(serde_json::Map<K, V>);

/// The document that a `serde_json::Value` holds.
pub uninterp spec fn json_of(value: serde_json::Value) -> JsonModel;

/// The members that a `serde_json::Map` holds, by key.
pub uninterp spec fn members_of(map: serde_json::Map<String, serde_json::Value>) -> Map<Seq<char>, JsonModel>;

/// The documents of a sequence of values, in order.
pub open spec fn models_of(values: Seq<serde_json::Value>) -> Seq<JsonModel> {
    values.map_values(|v: serde_json::Value| json_of(v))
}

/// The members of the empty object.
pub open spec fn no_members() -> Map<Seq<char>, JsonModel> {
    Map::empty()
}

/// The member of an object under `key`, if `doc` is an object that has one.
pub open spec fn member(doc: JsonModel, key: Seq<char>) -> Option<JsonModel> {
    match doc {
        JsonModel::Object(members) => if members.contains_key(key) {
            Some(members[key])
        } else {
            None
        },
        _ => None,
    }
}

/// The string that `doc` is, if it is one.
pub open spec fn text_of(doc: JsonModel) -> Option<Seq<char>> {
    match doc {
        JsonModel::Text(text) => Some(text),
        _ => None,
    }
}

/// The unsigned integer that `doc` is, if it is one.
pub open spec fn unsigned_of(doc: JsonModel) -> Option<u64> {
    match doc {
        JsonModel::Unsigned(n) => Some(n),
        _ => None,
    }
}

/// The boolean that `doc` is, if it is one.
pub open spec fn flag_of(doc: JsonModel) -> Option<bool> {
    match doc {
        JsonModel::Bool(flag) => Some(flag),
        _ => None,
    }
}

/// The items that `doc` lists, if it is an array.
pub open spec fn items_of(doc: JsonModel) -> Option<Seq<JsonModel>> {
    match doc {
        JsonModel::List(items) => Some(items),
        _ => None,
    }
}

/// The string under `key`, if `doc` is an object whose member under `key` is a string.
pub open spec fn text_member(doc: JsonModel, key: Seq<char>) -> Option<Seq<char>> {
    match member(doc, key) {
        Some(found) => text_of(found),
        None => None,
    }
}

/// The unsigned integer under `key`, if `doc` is an object whose member under `key` is one.
pub open spec fn unsigned_member(doc: JsonModel, key: Seq<char>) -> Option<u64> {
    match member(doc, key) {
        Some(found) => unsigned_of(found),
        None => None,
    }
}

/// The boolean under `key`, if `doc` is an object whose member under `key` is one.
pub open spec fn flag_member(doc: JsonModel, key: Seq<char>) -> Option<bool> {
    match member(doc, key) {
        Some(found) => flag_of(found),
        None => None,
    }
}

/// The items under `key`, if `doc` is an object whose member under `key` is an array.
pub open spec fn items_member(doc: JsonModel, key: Seq<char>) -> Option<Seq<JsonModel>> {
    match member(doc, key) {
        Some(found) => items_of(found),
        None => None,
    }
}

/// The strings that `items` are, in order, if every one of them is a string.
pub open spec fn texts_of(items: Seq<JsonModel>) -> Option<Seq<Seq<char>>> {
    if forall|i: int| 0 <= i < items.len() ==> text_of(#[trigger] items[i]) is Some {
        Some(Seq::new(items.len(), |i: int| text_of(items[i]).unwrap()))
    } else {
        None
    }
}

/// The JSON array of strings that holds `texts`, in order.
pub open spec fn texts_doc(texts: Seq<Seq<char>>) -> JsonModel {
    JsonModel::List(Seq::new(texts.len(), |i: int| JsonModel::Text(texts[i])))
}

/// The document of a value that a lookup found, if it found one.
pub open spec fn found_model(found: Option<&serde_json::Value>) -> Option<JsonModel> {
    match found {
        Some(value) => Some(json_of(*value)),
        None => None,
    }
}

/// The characters of a string that a read gave, if it gave one.
pub open spec fn found_text(found: Option<&str>) -> Option<Seq<char>> {
    match found {
        Some(text) => Some(text@),
        None => None,
    }
}

/// The documents of the values that a read gave, if it gave any.
pub open spec fn found_items(found: Option<&Vec<serde_json::Value>>) -> Option<Seq<JsonModel>> {
    match found {
        Some(items) => Some(models_of(items@)),
        None => None,
    }
}

/// `serde_json::Value::Null`: the value whose document is `null`.
#[verifier::external_body]
pub(crate) fn null_value() -> (value: serde_json::Value)
    ensures
        json_of(value) == JsonModel::Null,
{
    serde_json::Value::Null
}

/// `serde_json::Value::Bool`: the value whose document is the boolean `flag`.
#[verifier::external_body]
pub(crate) fn bool_value(flag: bool) -> (value: serde_json::Value)
    ensures
        json_of(value) == JsonModel::Bool(flag),
{
    serde_json::Value::Bool(flag)
}

/// `From<u64> for serde_json::Value`: the value whose document is the unsigned integer `n`.
#[verifier::external_body]
pub(crate) fn number_value(n: u64) -> (value: serde_json::Value)
    ensures
        json_of(value) == JsonModel::Unsigned(n),
{
    serde_json::Value::from(n)
}

/// `From<&str> for serde_json::Value`: the value whose document is the string `text`.
#[verifier::external_body]
pub(crate) fn text_value(text: &str) -> (value: serde_json::Value)
    ensures
        json_of(value) == JsonModel::Text(text@),
{
    serde_json::Value::from(text)
}

/// `serde_json::Value::Array`: the value whose document lists those of `items`, in order.
#[verifier::external_body]
pub(crate) fn list_value(items: Vec<serde_json::Value>) -> (value: serde_json::Value)
    ensures
        json_of(value) == JsonModel::List(models_of(items@)),
{
    serde_json::Value::Array(items)
}

/// `serde_json::Map::new`: a map without members.
#[verifier::external_body]
pub(crate) fn empty_members() -> (members: serde_json::Map<String, serde_json::Value>)
    ensures
        members_of(members) == no_members(),
{
    serde_json::Map::new()
}

/// `serde_json::Map::insert`: afterwards `key` maps to `value`, replacing an earlier
/// member under that key; every other member is kept.
#[verifier::external_body]
pub(crate) fn insert_member(map: &mut serde_json::Map<String, serde_json::Value>, key: &str, value: serde_json::Value)
    ensures
        members_of(*final(map)) == members_of(*old(map)).insert(key@, json_of(value)),
{
    map.insert(key.to_owned(), value);
}

/// `serde_json::Value::Object`: the value whose document is the object with the members of `map`.
#[verifier::external_body]
pub(crate) fn object_value(map: serde_json::Map<String, serde_json::Value>) -> (value: serde_json::Value)
    ensures
        json_of(value) == JsonModel::Object(members_of(map)),
{
    serde_json::Value::Object(map)
}

/// `serde_json::Value::get` with a string key: the member under `key` where `value`
/// is an object that has one, and nothing for any other value.
#[verifier::external_body]
pub(crate) fn member_value<'a>(value: &'a serde_json::Value, key: &str) -> (found: Option<&'a serde_json::Value>)
    ensures
        found_model(found) == member(json_of(*value), key@),
{
    value.get(key)
}

/// `serde_json::Value::as_str`: the string where `value` is one, and nothing otherwise.
#[verifier::external_body]
pub(crate) fn as_text<'a>(value: &'a serde_json::Value) -> (found: Option<&'a str>)
    ensures
        found_text(found) == text_of(json_of(*value)),
{
    value.as_str()
}

/// `serde_json::Value::as_u64`: the number where `value` is an unsigned integer, and
/// nothing for a negative or fractional number or any other value.
#[verifier::external_body]
pub(crate) fn as_unsigned(value: &serde_json::Value) -> (found: Option<u64>)
    ensures
        found == unsigned_of(json_of(*value)),
{
    value.as_u64()
}

/// `serde_json::Value::as_bool`: the boolean where `value` is one, and nothing otherwise.
#[verifier::external_body]
pub(crate) fn as_flag(value: &serde_json::Value) -> (found: Option<bool>)
    ensures
        found == flag_of(json_of(*value)),
{
    value.as_bool()
}

/// `serde_json::Value::as_array`: the items, in order, where `value` is an array, and
/// nothing otherwise.
#[verifier::external_body]
pub(crate) fn as_list<'a>(value: &'a serde_json::Value) -> (found: Option<&'a Vec<serde_json::Value>>)
    ensures
        found_items(found) == items_of(json_of(*value)),
{
    value.as_array()
}

/// The string member of `value` under `key`.
pub(crate) fn text_at<'a>(value: &'a serde_json::Value, key: &str) -> (found: Option<&'a str>)
    ensures
        found_text(found) == text_member(json_of(*value), key@),
{
    match member_value(value, key) {
        Some(found) => as_text(found),
        None => None,
    }
}

/// The unsigned integer member of `value` under `key`.
pub(crate) fn unsigned_at(value: &serde_json::Value, key: &str) -> (found: Option<u64>)
    ensures
        found == unsigned_member(json_of(*value), key@),
{
    match member_value(value, key) {
        Some(found) => as_unsigned(found),
        None => None,
    }
}

/// The boolean member of `value` under `key`.
pub(crate) fn flag_at(value: &serde_json::Value, key: &str) -> (found: Option<bool>)
    ensures
        found == flag_member(json_of(*value), key@),
{
    match member_value(value, key) {
        Some(found) => as_flag(found),
        None => None,
    }
}

/// The items of the array member of `value` under `key`.
pub(crate) fn items_at<'a>(value: &'a serde_json::Value, key: &str) -> (found: Option<&'a Vec<serde_json::Value>>)
    ensures
        found_items(found) == items_member(json_of(*value), key@),
{
    match member_value(value, key) {
        Some(found) => as_list(found),
        None => None,
    }
}

/// The JSON array of strings that holds `texts`, in order.
pub(crate) fn texts_value(texts: &Vec<String>) -> (value: serde_json::Value)
    ensures
        json_of(value) == texts_doc(texts.deep_view()),
{
    let mut items: Vec<serde_json::Value> = Vec::new();
    let mut i: usize = 0;
    while i < texts.len()
        invariant
            i <= texts.len(),
            items.len() == i,
            forall|j: int| 0 <= j < i ==> json_of(#[trigger] items@[j]) == JsonModel::Text(texts@[j]@),
        decreases texts.len() - i,
    {
        items.push(text_value(texts[i].as_str()));
        i = i + 1;
    }
    let value = list_value(items);
    proof {
        assert(models_of(items@) =~= texts_doc(texts.deep_view())->List_0);
    }
    value
}

/// The strings that `items` hold, in order; `None` unless every item is a string.
pub(crate) fn texts_from(items: &Vec<serde_json::Value>) -> (texts: Option<Vec<String>>)
    ensures
        texts.deep_view() == texts_of(models_of(items@)),
{
    let mut texts: Vec<String> = Vec::new();
    let mut i: usize = 0;
    while i < items.len()
        invariant
            i <= items.len(),
            texts.len() == i,
            forall|j: int| 0 <= j < i ==> text_of(#[trigger] models_of(items@)[j]) == Some(texts@[j]@),
        decreases items.len() - i,
    {
        match as_text(&items[i]) {
            Some(text) => {
                texts.push(text.to_owned());
            },
            None => {
                assert(text_of(models_of(items@)[i as int]) is None);
                return None;
            },
        }
        i = i + 1;
    }
    proof {
        assert(texts.deep_view() =~= texts_of(models_of(items@)).unwrap());
    }
    Some(texts)
}

} // verus!
