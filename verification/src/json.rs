//! JSON documents as the remote services send them: a tree of plain values,
//! read from text by `serde_json`, and the lookups the rest of the library
//! makes in it.

use vstd::prelude::*;
use crate::text::same_text;

verus! {

/// A JSON value as the library reads it.
#[derive(Debug, PartialEq, Eq)]
pub enum Json {
    Null,
    Bool(bool),
    /// A number; its value where it is a non-negative integer below 2^64.
    Number(Option<u64>),
    Text(String),
    Array(Vec<Json>),
    /// The members of an object, each with its key.
    Object(Vec<(String, Json)>),
}

/// The mathematical value of a [`Json`].
pub enum JsonValue {
    Null,
    Bool(bool),
    Number(Option<u64>),
    Text(Seq<char>),
    Array(Seq<JsonValue>),
    Object(Seq<(Seq<char>, JsonValue)>),
}

/// The value of `j`, variant by variant.
pub open spec fn value_of(j: Json) -> JsonValue
    decreases j,
{
    match j {
        Json::Null => JsonValue::Null,
        Json::Bool(b) => JsonValue::Bool(b),
        Json::Number(n) => JsonValue::Number(n),
        Json::Text(s) => JsonValue::Text(s@),
        Json::Array(items) => JsonValue::Array(
            Seq::new(
                items@.len(),
                |i: int|
                    if 0 <= i < items@.len() {
                        value_of(items@[i])
                    } else {
                        JsonValue::Null
                    },
            ),
        ),
        Json::Object(members) => JsonValue::Object(
            Seq::new(
                members@.len(),
                |i: int|
                    if 0 <= i < members@.len() {
                        (members@[i].0@, value_of(members@[i].1))
                    } else {
                        (Seq::empty(), JsonValue::Null)
                    },
            ),
        ),
    }
}

impl View for Json {
    type V = JsonValue;

    open spec fn view(&self) -> JsonValue {
        value_of(*self)
    }
}

/// The value of an array is the sequence of its elements' values.
pub proof fn lemma_array_view(items: Vec<Json>)
    ensures
        Json::Array(items)@ == JsonValue::Array(items@.map_values(|j: Json| j@)),
{
    assert(Json::Array(items)@->Array_0 =~= items@.map_values(|j: Json| j@));
}

/// The value of an object is the sequence of its members' keys and values.
pub proof fn lemma_object_view(members: Vec<(String, Json)>)
    ensures
        Json::Object(members)@ == JsonValue::Object(
            members@.map_values(|m: (String, Json)| (m.0@, m.1@)),
        ),
{
    assert(Json::Object(members)@->Object_0 =~= members@.map_values(
        |m: (String, Json)| (m.0@, m.1@),
    ));
}

impl JsonValue {
    /// The value that an object holds under `key`: that of its first member
    /// with this key. `None` for an object without the key and for every
    /// value that is no object.
    pub open spec fn member(self, key: Seq<char>) -> Option<JsonValue> {
        match self {
            JsonValue::Object(members) => first_under(members, key),
            _ => None,
        }
    }

    /// The characters of a JSON string, `None` for any other value.
    pub open spec fn text(self) -> Option<Seq<char>> {
        match self {
            JsonValue::Text(s) => Some(s),
            _ => None,
        }
    }

    /// The elements of a JSON array, `None` for any other value.
    pub open spec fn items(self) -> Option<Seq<JsonValue>> {
        match self {
            JsonValue::Array(items) => Some(items),
            _ => None,
        }
    }

    /// The value of a JSON number that is a non-negative integer below 2^64,
    /// `None` for every other number and any other value.
    pub open spec fn unsigned(self) -> Option<u64> {
        match self {
            JsonValue::Number(n) => n,
            _ => None,
        }
    }
}

/// The value of the first of `members` whose key is `key`.
pub open spec fn first_under(members: Seq<(Seq<char>, JsonValue)>, key: Seq<char>) -> Option<
    JsonValue,
>
    decreases members.len(),
{
    if members.len() == 0 {
        None
    } else if members[0].0 == key {
        Some(members[0].1)
    } else {
        first_under(members.drop_first(), key)
    }
}

impl Json {
    /// Looks `key` up in an object.
    pub fn get(&self, key: &str) -> (r: Option<&Json>)
        ensures
            match r {
                Some(j) => self@.member(key@) == Some(j@),
                None => self@.member(key@) is None,
            },
    {
        match self {
            Json::Object(members) => {
                let ghost all = self@->Object_0;
                let mut i: usize = 0;
                proof {
                    lemma_object_view(*members);
                    assert(all.skip(0) =~= all);
                }
                while i < members.len()
                    invariant
                        i <= members.len(),
                        self@ == JsonValue::Object(all),
                        all.len() == members@.len(),
                        forall|k: int|
                            0 <= k < members@.len() ==> #[trigger] all[k] == (
                                members@[k].0@,
                                members@[k].1@,
                            ),
                        first_under(all, key@) == first_under(all.skip(i as int), key@),
                    decreases members.len() - i,
                {
                    assert(all.skip(i as int).drop_first() =~= all.skip(i + 1));
                    if same_text(members[i].0.as_str(), key) {
                        return Some(&members[i].1);
                    }
                    i += 1;
                }
                None
            },
            _ => None,
        }
    }

    /// The characters of a JSON string.
    pub fn as_text(&self) -> (r: Option<&str>)
        ensures
            match r {
                Some(s) => self@.text() == Some(s@),
                None => self@.text() is None,
            },
    {
        match self {
            Json::Text(s) => Some(s.as_str()),
            _ => None,
        }
    }

    /// The elements of a JSON array.
    pub fn as_array(&self) -> (r: Option<&Vec<Json>>)
        ensures
            match r {
                Some(v) => self@.items() == Some(v@.map_values(|j: Json| j@)),
                None => self@.items() is None,
            },
    {
        match self {
            Json::Array(items) => {
                proof {
                    lemma_array_view(*items);
                }
                Some(items)
            },
            _ => None,
        }
    }

    /// The value of a number that is a non-negative integer below 2^64.
    pub fn as_u64(&self) -> (r: Option<u64>)
        ensures
            r == self@.unsigned(),
    {
        match self {
            Json::Number(n) => *n,
            _ => None,
        }
    }
}

/// `serde_json::Value`, carried from the reader to the conversion and not
/// looked into.
#[verifier::external_type_specification]
#[verifier::external_body]
pub struct ExDocumentTree(serde_json::Value);

/// `serde_json::Error`, of which only its presence is used.
#[verifier::external_type_specification]
#[verifier::external_body]
pub struct ExDocumentError(serde_json::Error);

/// The document that a text is when read as JSON, `None` where it is not JSON.
pub uninterp spec fn json_document(text: Seq<char>) -> Option<JsonValue>;

/// The value that a `serde_json` tree holds.
pub uninterp spec fn tree_value(tree: serde_json::Value) -> JsonValue;

/// `serde_json::from_str`, at the type `serde_json::Value`. The contract only
/// gives the outcome a name: the tree read from a text is a function of that
/// text, and so is whether reading fails.
#[verifier::external_body]
fn read_tree(text: &str) -> (r: Result<serde_json::Value, serde_json::Error>)
    ensures
        r matches Ok(tree) ==> json_document(text@) == Some(tree_value(tree)),
        r is Err ==> json_document(text@) is None,
{
    serde_json::from_str(text)
}

/// Moves a `serde_json::Value` into a [`Json`], variant by variant; of a
/// number it keeps what `serde_json::Number::as_u64` gives. The contract says
/// that the result's value is the one the tree holds.
#[verifier::external_body]
fn json_of_tree(tree: serde_json::Value) -> (j: Json)
    ensures
        j@ == tree_value(tree),
{
    match tree {
        serde_json::Value::Null => Json::Null,
        serde_json::Value::Bool(b) => Json::Bool(b),
        serde_json::Value::Number(n) => Json::Number(n.as_u64()),
        serde_json::Value::String(s) => Json::Text(s),
        serde_json::Value::Array(items) => Json::Array(items.into_iter().map(json_of_tree).collect()),
        serde_json::Value::Object(members) => Json::Object(
            members.into_iter().map(|(k, v)| (k, json_of_tree(v))).collect(),
        ),
    }
}

/// The text was not JSON.
#[derive(Debug, Clone, Copy, PartialEq, Eq)]
pub struct NotJson;

/// Reads a JSON document.
pub fn parse(text: &str) -> (r: Result<Json, NotJson>)
    ensures
        match r {
            Ok(j) => json_document(text@) == Some(j@),
            Err(_) => json_document(text@) is None,
        },
{
    match read_tree(text) {
        Ok(tree) => Ok(json_of_tree(tree)),
        Err(_) => Err(NotJson),
    }
}

} // verus!
