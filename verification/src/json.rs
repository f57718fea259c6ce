//! JSON values as the backend receives them.
//!
//! The values themselves are `serde_json::Value`s. Nothing in this crate
//! looks inside one: what a value holds is spoken of through [`json_tree`],
//! and a value is made only by the four constructors at the end of this
//! file, whose contracts are believed, not proved. What the rest of the
//! crate says of a value is proved from those four contracts.

use vstd::prelude::*;
use serde_json::Value;

verus! {

/// `serde_json::Value`, carried through unopened.
#[verifier::external_type_specification]
#[verifier::external_body]
pub struct ExValue(serde_json::Value);

/// A JSON document as a mathematical tree.
pub enum Json {
    /// A non-negative whole number.
    Number(nat),
    /// A string.
    Text(Seq<char>),
    /// An array: its items in order.
    List(Seq<Json>),
    /// An object: its members by key. The order of members carries no meaning.
    Object(Map<Seq<char>, Json>),
}

/// The tree that a `serde_json::Value` holds.
pub uninterp spec fn json_tree(value: serde_json::Value) -> Json;

/// The trees of a sequence of values, in the same order.
pub(crate) open spec fn json_trees(values: Seq<Value>) -> Seq<Json> {
    values.map_values(|value: Value| json_tree(value))
}

/// The members that a list of key-value pairs stands for.
pub(crate) open spec fn member_map(members: Seq<(String, Value)>) -> Map<Seq<char>, Json>
    decreases members.len(),
{
    if members.len() == 0 {
        Map::empty()
    } else {
        member_map(members.drop_last()).insert(members.last().0@, json_tree(members.last().1))
    }
}

/// No two pairs of the list share a key.
pub(crate) open spec fn distinct_keys(members: Seq<(String, Value)>) -> bool {
    forall|i: int, j: int|
        0 <= i < j < members.len() ==> (#[trigger] members[i]).0@ != (#[trigger] members[j]).0@
}

impl Json {
    /// The object whose only member is `value` under `key`.
    pub open spec fn entry(key: Seq<char>, value: Json) -> Json {
        Json::Object(Map::empty().insert(key, value))
    }

    /// The array of the given numbers, in order.
    pub open spec fn numbers(numbers: Seq<u32>) -> Json {
        Json::List(numbers.map_values(|n: u32| Json::Number(n as nat)))
    }

    /// The array of the given strings, in order.
    pub open spec fn texts(texts: Seq<Seq<char>>) -> Json {
        Json::List(texts.map_values(|text: Seq<char>| Json::Text(text)))
    }
}

/// Every key of a list of pairs is a key of the members it stands for.
pub(crate) proof fn lemma_member_keys(members: Seq<(String, Value)>, i: int)
    requires
        0 <= i < members.len(),
    ensures
        member_map(members).dom().contains(members[i].0@),
    decreases members.len(),
{
    if i < members.len() - 1 {
        lemma_member_keys(members.drop_last(), i);
    }
}

/// The members of a JSON object that is being put together.
pub(crate) struct JsonObject {
    members: Vec<(String, Value)>,
}

impl JsonObject {
    #[verifier::type_invariant]
    spec fn keys_differ(self) -> bool {
        distinct_keys(self.members@)
    }

    /// The members so far, by key.
    pub(crate) closed spec fn members(&self) -> Map<Seq<char>, Json> {
        member_map(self.members@)
    }

    /// An object without members.
    pub(crate) fn new() -> (object: JsonObject)
        ensures
            object.members() == Map::<Seq<char>, Json>::empty(),
    {
        JsonObject { members: Vec::new() }
    }

    /// The object with one more member. The key must be new to it.
    pub(crate) fn with(self, key: &str, value: Value) -> (object: JsonObject)
        requires
            !self.members().dom().contains(key@),
        ensures
            object.members() == self.members().insert(key@, json_tree(value)),
    {
        proof {
            use_type_invariant(&self);
        }
        let ghost before = self.members@;
        let mut members = self.members;
        members.push((key.to_owned(), value));
        proof {
            assert(members@.drop_last() =~= before);
            assert forall|i: int, j: int| 0 <= i < j < members@.len() implies (
            #[trigger] members@[i]).0@ != (#[trigger] members@[j]).0@ by {
                if j == before.len() {
                    lemma_member_keys(before, i);
                }
            }
        }
        JsonObject { members }
    }

    /// The JSON value that holds exactly the members put together.
    pub(crate) fn finish(self) -> (value: Value)
        ensures
            json_tree(value) == Json::Object(self.members()),
    {
        proof {
            use_type_invariant(&self);
        }
        json_object(self.members)
    }
}

/// The JSON object whose only member is `value` under `key`.
pub(crate) fn json_entry(key: &str, value: Value) -> (object: Value)
    ensures
        json_tree(object) == Json::entry(key@, json_tree(value)),
{
    JsonObject::new().with(key, value).finish()
}

/// The JSON array of the given numbers, in order.
pub(crate) fn json_numbers(numbers: &Vec<u32>) -> (list: Value)
    ensures
        json_tree(list) == Json::numbers(numbers@),
{
    let mut items: Vec<Value> = Vec::new();
    let mut at: usize = 0;
    while at < numbers.len()
        invariant
            at <= numbers@.len(),
            json_trees(items@) == numbers@.take(at as int).map_values(
                |n: u32| Json::Number(n as nat),
            ),
        decreases numbers@.len() - at,
    {
        let ghost before = items@;
        let item = json_number(numbers[at]);
        items.push(item);
        at += 1;
        assert(json_trees(items@) =~= json_trees(before).push(json_tree(item)));
    }
    assert(numbers@.take(at as int) =~= numbers@);
    json_list(items)
}

/// The JSON array of the given strings, in order.
pub(crate) fn json_texts(texts: &Vec<String>) -> (list: Value)
    ensures
        json_tree(list) == Json::texts(texts@.map_values(|text: String| text@)),
{
    let ghost all = texts@.map_values(|text: String| text@);
    let mut items: Vec<Value> = Vec::new();
    let mut at: usize = 0;
    while at < texts.len()
        invariant
            at <= texts@.len(),
            all == texts@.map_values(|text: String| text@),
            json_trees(items@) == all.take(at as int).map_values(
                |text: Seq<char>| Json::Text(text),
            ),
        decreases texts@.len() - at,
    {
        let ghost before = items@;
        let item = json_text(texts[at].as_str());
        items.push(item);
        at += 1;
        assert(json_trees(items@) =~= json_trees(before).push(json_tree(item)));
    }
    assert(all.take(at as int) =~= all);
    json_list(items)
}

/// Calls `serde_json::Value::from` on a `u32`, which makes
/// `Value::Number` of that integer. Believed, not proved: the result holds
/// the JSON number `n`.
#[verifier::external_body]
pub(crate) fn json_number(n: u32) -> (value: Value)
    ensures
        json_tree(value) == Json::Number(n as nat),
{
    Value::from(n)
}

/// Calls `serde_json::Value::from` on a string slice, which makes
/// `Value::String` of a copy of it. Believed, not proved: the result holds
/// the JSON string with the same characters.
#[verifier::external_body]
pub(crate) fn json_text(text: &str) -> (value: Value)
    ensures
        json_tree(value) == Json::Text(text@),
{
    Value::from(text)
}

/// Calls `serde_json::Value::from` on a vector of values, which makes
/// `Value::Array` of them. Believed, not proved: the result holds the JSON
/// array of those values, in the vector's order.
#[verifier::external_body]
pub(crate) fn json_list(items: Vec<Value>) -> (value: Value)
    ensures
        json_tree(value) == Json::List(json_trees(items@)),
{
    Value::from(items)
}

/// Calls `serde_json::Value::from_iter` on key-value pairs, which collects
/// them into the map of a `Value::Object`. Believed, not proved: where no
/// two pairs share a key, the result holds the JSON object with each key
/// and its value. Lists that repeat a key are left out.
#[verifier::external_body]
pub(crate) fn json_object(members: Vec<(String, Value)>) -> (value: Value)
    requires
        distinct_keys(members@),
    ensures
        json_tree(value) == Json::Object(member_map(members@)),
{
    Value::from_iter(members)
}

} // verus!
