//! JSON documents as the decoder reads them. The text is parsed by
//! `serde_json`; what it yields is held in a tree of the library's own, whose
//! view is the mathematical model that the contracts speak of.

use vstd::prelude::*;
use vstd::string::*;

verus! {

/// A JSON document. A number is held by its text, so that no value is lost;
/// an object is held as the list of its members.
#[derive(Debug, PartialEq, Eq)]
pub enum Json {
    Null,
    Bool(bool),
    Number(String),
    Text(String),
    Array(Vec<Json>),
    Object(Vec<(String, Json)>),
}

/// The mathematical model of a [`Json`] document.
pub enum JsonModel {
    Null,
    Bool(bool),
    Number(Seq<char>),
    Text(Seq<char>),
    Array(Seq<JsonModel>),
    Object(Seq<(Seq<char>, JsonModel)>),
}

/// The models of a list of documents, one for one.
pub open spec fn items_model(items: Seq<Json>) -> Seq<JsonModel>
    decreases items,
{
    Seq::new(
        items.len(),
        |i: int|
            if 0 <= i < items.len() {
                items[i].view()
            } else {
                JsonModel::Null
            },
    )
}

/// The models of a list of members, one for one.
pub open spec fn members_model(members: Seq<(String, Json)>) -> Seq<(Seq<char>, JsonModel)>
    decreases members,
{
    Seq::new(
        members.len(),
        |i: int|
            if 0 <= i < members.len() {
                (members[i].0@, members[i].1.view())
            } else {
                (Seq::<char>::empty(), JsonModel::Null)
            },
    )
}

impl View for Json {
    type V = JsonModel;

    open spec fn view(&self) -> JsonModel
        decreases self,
    {
        match self {
            Json::Null => JsonModel::Null,
            Json::Bool(b) => JsonModel::Bool(*b),
            Json::Number(text) => JsonModel::Number(text@),
            Json::Text(text) => JsonModel::Text(text@),
            Json::Array(items) => JsonModel::Array(items_model(items@)),
            Json::Object(members) => JsonModel::Object(members_model(members@)),
        }
    }
}

/// The value of the first member of `members` at or after position `from`
/// whose key is `key`.
pub open spec fn find_member(members: Seq<(Seq<char>, JsonModel)>, key: Seq<char>, from: int) -> Option<
    JsonModel,
>
    decreases members.len() - from,
{
    if from < 0 || from >= members.len() {
        None
    } else if members[from].0 == key {
        Some(members[from].1)
    } else {
        find_member(members, key, from + 1)
    }
}

impl JsonModel {
    /// The value of the first member called `key`, if the document is an
    /// object that has one.
    pub open spec fn member(self, key: Seq<char>) -> Option<JsonModel> {
        match self {
            JsonModel::Object(members) => find_member(members, key, 0),
            _ => None,
        }
    }
}

impl Json {
    /// Looks up the first member called `key`.
    pub fn member(&self, key: &str) -> (r: Option<&Json>)
        ensures
            r is Some <==> self@.member(key@) is Some,
            r matches Some(found) ==> self@.member(key@) == Some(found@),
    {
        match self {
            Json::Object(members) => {
                let wanted: String = String::from_str(key);
                let mut i: usize = 0;
                while i < members.len()
                    invariant
                        0 <= i <= members.len(),
                        wanted@ == key@,
                        self@ == JsonModel::Object(members_model(members@)),
                        find_member(members_model(members@), key@, 0) == find_member(
                            members_model(members@),
                            key@,
                            i as int,
                        ),
                    decreases members.len() - i,
                {
                    if members[i].0 == wanted {
                        return Some(&members[i].1);
                    }
                    i = i + 1;
                }
                None
            },
            _ => None,
        }
    }

    /// The text of a string value.
    pub fn as_text(&self) -> (r: Option<&String>)
        ensures
            r is Some <==> self@ is Text,
            r matches Some(text) ==> self@ == JsonModel::Text(text@),
    {
        match self {
            Json::Text(text) => Some(text),
            _ => None,
        }
    }

    /// The text of a number value.
    pub fn as_number(&self) -> (r: Option<&String>)
        ensures
            r is Some <==> self@ is Number,
            r matches Some(text) ==> self@ == JsonModel::Number(text@),
    {
        match self {
            Json::Number(text) => Some(text),
            _ => None,
        }
    }

    /// Whether the document is the value `null`.
    pub fn is_null(&self) -> (r: bool)
        ensures
            r == (self@ is Null),
    {
        match self {
            Json::Null => true,
            _ => false,
        }
    }

    /// Whether the document is an object.
    pub fn is_object(&self) -> (r: bool)
        ensures
            r == (self@ is Object),
    {
        match self {
            Json::Object(_) => true,
            _ => false,
        }
    }
}

/// A copy of a list of documents.
fn clone_items(items: &Vec<Json>) -> (r: Vec<Json>)
    ensures
        items_model(r@) == items_model(items@),
    decreases items,
{
    let mut out: Vec<Json> = Vec::new();
    let mut i: usize = 0;
    while i < items.len()
        invariant
            0 <= i <= items.len(),
            out.len() == i,
            forall|j: int| 0 <= j < i ==> out@[j]@ == items@[j]@,
        decreases items.len() - i,
    {
        let copy: Json = items[i].clone();
        out.push(copy);
        i = i + 1;
    }
    out
}

/// A copy of a list of members.
fn clone_members(members: &Vec<(String, Json)>) -> (r: Vec<(String, Json)>)
    ensures
        members_model(r@) == members_model(members@),
    decreases members,
{
    let mut out: Vec<(String, Json)> = Vec::new();
    let mut i: usize = 0;
    while i < members.len()
        invariant
            0 <= i <= members.len(),
            out.len() == i,
            forall|j: int|
                0 <= j < i ==> out@[j].0@ == members@[j].0@ && out@[j].1@ == members@[j].1@,
        decreases members.len() - i,
    {
        let key: String = members[i].0.clone();
        let value: Json = members[i].1.clone();
        out.push((key, value));
        i = i + 1;
    }
    out
}

impl Clone for Json {
    /// A copy with the same model.
    fn clone(&self) -> (r: Json)
        ensures
            r@ == self@,
        decreases self,
    {
        match self {
            Json::Null => Json::Null,
            Json::Bool(b) => Json::Bool(*b),
            Json::Number(text) => Json::Number(text.clone()),
            Json::Text(text) => Json::Text(text.clone()),
            Json::Array(items) => Json::Array(clone_items(items)),
            Json::Object(members) => Json::Object(clone_members(members)),
        }
    }
}

/// A parsed JSON value of `serde_json`. Nothing inside it is visible here:
/// it is read through `node_of` below.
#[verifier::external_type_specification]
#[verifier::external_body]
pub struct ExValue(serde_json::Value);

/// A JSON number of `serde_json`; it is read through `number_text` below.
#[verifier::external_type_specification]
#[verifier::external_body]
pub struct ExNumber(serde_json::Number);

/// The error of `serde_json`; the library reads nothing from it.
#[verifier::external_type_specification]
#[verifier::external_body]
pub struct ExParseError(serde_json::Error);

/// What a `serde_json::Value` holds, as a document model.
pub uninterp spec fn value_tree(value: serde_json::Value) -> JsonModel;

/// The text that `serde_json` writes for a number.
pub uninterp spec fn number_notation(number: serde_json::Number) -> Seq<char>;

/// What `serde_json::from_str` makes of a text: the document it reads, or
/// nothing where it rejects the text.
pub uninterp spec fn parsed_tree(text: Seq<char>) -> Option<JsonModel>;

/// One level of a `serde_json::Value`: which variant it is, with what the
/// variant holds as it is.
enum Node<'a> {
    Null,
    Bool(bool),
    Number(&'a serde_json::Number),
    Text(&'a String),
    Array(&'a Vec<serde_json::Value>),
    Object(Vec<(&'a String, &'a serde_json::Value)>),
}

/// The document model of the value that `node` is one level of.
spec fn node_tree(node: Node) -> JsonModel {
    match node {
        Node::Null => JsonModel::Null,
        Node::Bool(b) => JsonModel::Bool(b),
        Node::Number(number) => JsonModel::Number(number_notation(*number)),
        Node::Text(text) => JsonModel::Text(text@),
        Node::Array(items) => JsonModel::Array(
            Seq::new(items@.len(), |i: int| value_tree(items@[i])),
        ),
        Node::Object(members) => JsonModel::Object(
            Seq::new(members@.len(), |i: int| (members@[i].0@, value_tree(*members@[i].1))),
        ),
    }
}

/// Calls `serde_json::from_str` for a `serde_json::Value`. Nothing is claimed
/// of which texts are accepted: the outcome is a function of the text alone,
/// and `parsed_tree` is its name.
#[verifier::external_body]
fn parse_value(text: &str) -> (r: Result<serde_json::Value, serde_json::Error>)
    ensures
        r matches Ok(value) ==> parsed_tree(text@) == Some(value_tree(value)),
        r is Err ==> parsed_tree(text@) is None,
{
    serde_json::from_str::<serde_json::Value>(text)
}

/// Tells the variants of a `serde_json::Value` apart and hands out what the
/// variant holds; the members of an object come in the order of
/// `serde_json::Map::iter`. The claim is what `value_tree` means: a scalar is
/// modelled by itself, an array by the models of its items and an object by
/// its keys with the models of their values.
#[verifier::external_body]
fn node_of<'a>(value: &'a serde_json::Value) -> (node: Node<'a>)
    ensures
        node_tree(node) == value_tree(*value),
{
    match value {
        serde_json::Value::Null => Node::Null,
        serde_json::Value::Bool(b) => Node::Bool(*b),
        serde_json::Value::Number(n) => Node::Number(n),
        serde_json::Value::String(s) => Node::Text(s),
        serde_json::Value::Array(a) => Node::Array(a),
        serde_json::Value::Object(o) => Node::Object(o.iter().collect()),
    }
}

/// Calls the `Display` of `serde_json::Number`, through `to_string`. The text
/// is a function of the number alone, and `number_notation` is its name.
#[verifier::external_body]
fn number_text(number: &serde_json::Number) -> (text: String)
    ensures
        text@ == number_notation(*number),
{
    number.to_string()
}

/// The documents of the items of an array.
fn trees_of_items(items: &Vec<serde_json::Value>, Ghost(whole): Ghost<JsonModel>) -> (r: Vec<Json>)
    requires
        whole == JsonModel::Array(Seq::new(items@.len(), |i: int| value_tree(items@[i]))),
    ensures
        items_model(r@) == Seq::new(items@.len(), |i: int| value_tree(items@[i])),
    decreases whole, 0nat,
{
    let mut out: Vec<Json> = Vec::new();
    let mut i: usize = 0;
    while i < items.len()
        invariant
            0 <= i <= items.len(),
            out.len() == i,
            whole == JsonModel::Array(Seq::new(items@.len(), |i: int| value_tree(items@[i]))),
            forall|j: int| 0 <= j < i ==> out@[j]@ == value_tree(items@[j]),
        decreases items.len() - i,
    {
        proof {
            // The item's model is a part of the array's model, hence smaller.
            let trees = whole->Array_0;
            assert(trees[i as int] == value_tree(items@[i as int]));
            assert(decreases_to!(whole => trees[i as int]));
        }
        out.push(tree_of(&items[i]));
        i = i + 1;
    }
    out
}

/// The members of an object, each value as a document.
fn trees_of_members(
    members: &Vec<(&String, &serde_json::Value)>,
    Ghost(whole): Ghost<JsonModel>,
) -> (r: Vec<(String, Json)>)
    requires
        whole == JsonModel::Object(
            Seq::new(members@.len(), |i: int| (members@[i].0@, value_tree(*members@[i].1))),
        ),
    ensures
        members_model(r@) == Seq::new(
            members@.len(),
            |i: int| (members@[i].0@, value_tree(*members@[i].1)),
        ),
    decreases whole, 0nat,
{
    let mut out: Vec<(String, Json)> = Vec::new();
    let mut i: usize = 0;
    while i < members.len()
        invariant
            0 <= i <= members.len(),
            out.len() == i,
            whole == JsonModel::Object(
                Seq::new(members@.len(), |i: int| (members@[i].0@, value_tree(*members@[i].1))),
            ),
            forall|j: int|
                0 <= j < i ==> out@[j].0@ == members@[j].0@ && out@[j].1@ == value_tree(
                    *members@[j].1,
                ),
        decreases members.len() - i,
    {
        proof {
            // The value's model is a part of the object's model, hence smaller.
            let pairs = whole->Object_0;
            assert(pairs[i as int].1 == value_tree(*members@[i as int].1));
            assert(decreases_to!(whole => pairs[i as int].1));
        }
        let key: String = members[i].0.clone();
        let value: Json = tree_of(members[i].1);
        out.push((key, value));
        i = i + 1;
    }
    out
}

/// The document that a parsed value holds.
fn tree_of(value: &serde_json::Value) -> (doc: Json)
    ensures
        doc@ == value_tree(*value),
    decreases value_tree(*value), 1nat,
{
    match node_of(value) {
        Node::Null => Json::Null,
        Node::Bool(b) => Json::Bool(b),
        Node::Number(number) => Json::Number(number_text(number)),
        Node::Text(text) => Json::Text(text.clone()),
        Node::Array(items) => Json::Array(trees_of_items(items, Ghost(value_tree(*value)))),
        Node::Object(members) => Json::Object(
            trees_of_members(&members, Ghost(value_tree(*value))),
        ),
    }
}

/// Parses a JSON text into a document.
pub fn parse_document(text: &str) -> (r: Option<Json>)
    ensures
        r is Some <==> parsed_tree(text@) is Some,
        r matches Some(doc) ==> parsed_tree(text@) == Some(doc@),
{
    match parse_value(text) {
        Ok(value) => Some(tree_of(&value)),
        Err(_) => None,
    }
}

} // verus!
