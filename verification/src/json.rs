//! JSON documents as trees of plain values, and the two calls into
//! `serde_json` that turn text into a tree and a tree into text.

use vstd::prelude::*;

verus! {

/// A JSON document as a tree of plain values.
#[derive(Debug, PartialEq, Eq)]
pub enum Json {
    Null,
    Bool(bool),
    /// An integer that fits `i64`; `None` stands for any other number.
    Number(Option<i64>),
    Text(String),
    List(Vec<Json>),
    Record(Vec<Member>),
}

/// One `key: value` entry of a JSON object.
#[derive(Debug, PartialEq, Eq)]
pub struct Member {
    pub key: String,
    pub value: Json,
}

/// Model of a [`Json`] tree.
pub enum JsonModel {
    Null,
    Bool(bool),
    Number(Option<i64>),
    Text(Seq<char>),
    List(Seq<JsonModel>),
    Record(Seq<(Seq<char>, JsonModel)>),
}

/// The value under the first entry of `members` whose key is `key`.
pub open spec fn lookup(members: Seq<(Seq<char>, JsonModel)>, key: Seq<char>) -> Option<JsonModel>
    decreases members.len(),
{
    if members.len() == 0 {
        None
    } else if members[0].0 == key {
        Some(members[0].1)
    } else {
        lookup(members.drop_first(), key)
    }
}

/// A key that stands at exactly one place of `members` is found there.
pub proof fn lemma_lookup_unique(members: Seq<(Seq<char>, JsonModel)>, key: Seq<char>, at: int)
    requires
        0 <= at < members.len(),
        members[at].0 == key,
        forall|j: int| 0 <= j < at ==> (#[trigger] members[j]).0 != key,
    ensures
        lookup(members, key) == Some(members[at].1),
    decreases members.len(),
{
    if at > 0 {
        let rest = members.drop_first();
        assert(members[0].0 != key);
        assert forall|j: int| 0 <= j < at - 1 implies (#[trigger] rest[j]).0 != key by {
            assert(rest[j] == members[j + 1]);
        }
        lemma_lookup_unique(rest, key, at - 1);
    }
}

/// A key that stands nowhere in `members` is not found.
pub proof fn lemma_lookup_absent(members: Seq<(Seq<char>, JsonModel)>, key: Seq<char>)
    requires
        forall|j: int| 0 <= j < members.len() ==> (#[trigger] members[j]).0 != key,
    ensures
        lookup(members, key) is None,
    decreases members.len(),
{
    if members.len() > 0 {
        let rest = members.drop_first();
        assert(members[0].0 != key);
        assert forall|j: int| 0 <= j < rest.len() implies (#[trigger] rest[j]).0 != key by {
            assert(rest[j] == members[j + 1]);
        }
        lemma_lookup_absent(rest, key);
    }
}

impl JsonModel {
    /// The value that an object holds under `key`; `None` where `self` is no
    /// object or has no such key.
    pub open spec fn member(self, key: Seq<char>) -> Option<JsonModel> {
        match self {
            JsonModel::Record(members) => lookup(members, key),
            _ => None,
        }
    }
}

/// The model of a tree.
pub open spec fn model_of(tree: Json) -> JsonModel
    decreases tree,
{
    match tree {
        Json::Null => JsonModel::Null,
        Json::Bool(b) => JsonModel::Bool(b),
        Json::Number(n) => JsonModel::Number(n),
        Json::Text(s) => JsonModel::Text(s@),
        Json::List(items) => JsonModel::List(
            Seq::new(
                items@.len(),
                |i: int|
                    if 0 <= i < items@.len() {
                        model_of(items@[i])
                    } else {
                        JsonModel::Null
                    },
            ),
        ),
        Json::Record(members) => JsonModel::Record(
            Seq::new(
                members@.len(),
                |i: int|
                    if 0 <= i < members@.len() {
                        (members@[i].key@, model_of(members@[i].value))
                    } else {
                        (Seq::empty(), JsonModel::Null)
                    },
            ),
        ),
    }
}

impl View for Json {
    type V = JsonModel;

    open spec fn view(&self) -> JsonModel {
        model_of(*self)
    }
}

/// Models of the items of a list, in order.
pub open spec fn list_view(items: Seq<Json>) -> Seq<JsonModel> {
    Seq::new(items.len(), |i: int| items[i]@)
}

/// Models of the entries of an object, in order.
pub open spec fn record_view(members: Seq<Member>) -> Seq<(Seq<char>, JsonModel)> {
    Seq::new(members.len(), |i: int| (members[i].key@, members[i].value@))
}

/// The model of a list is the list of its items' models.
pub proof fn lemma_list_view(items: Vec<Json>)
    ensures
        Json::List(items)@ == JsonModel::List(list_view(items@)),
{
    assert(Json::List(items)@->List_0 =~= list_view(items@));
}

/// The model of an object is the list of its entries' models.
pub proof fn lemma_record_view(members: Vec<Member>)
    ensures
        Json::Record(members)@ == JsonModel::Record(record_view(members@)),
{
    assert(Json::Record(members)@->Record_0 =~= record_view(members@));
}

impl Json {
    /// Looks up `key` in an object.
    pub fn member(&self, key: &str) -> (found: Option<&Json>)
        ensures
            match found {
                Some(value) => self@.member(key@) == Some(value@),
                None => self@.member(key@) is None,
            },
    {
        match self {
            Json::Record(members) => {
                proof {
                    lemma_record_view(*members);
                }
                let needle = String::from_str(key);
                let ghost entries = record_view(members@);
                let mut i: usize = 0;
                assert(entries.skip(0) =~= entries);
                while i < members.len()
                    invariant
                        i <= members.len(),
                        needle@ == key@,
                        entries == record_view(members@),
                        self@ == JsonModel::Record(entries),
                        lookup(entries, key@) == lookup(entries.skip(i as int), key@),
                    decreases members.len() - i,
                {
                    let ghost rest = entries.skip(i as int);
                    assert(rest[0] == (members@[i as int].key@, members@[i as int].value@));
                    assert(rest.drop_first() =~= entries.skip(i + 1));
                    if members[i].key == needle {
                        return Some(&members[i].value);
                    }
                    i += 1;
                }
                None
            },
            _ => None,
        }
    }
}

/// The tree that `serde_json::from_str` reads out of `text`, or `None` where
/// it rejects `text`.
pub uninterp spec fn parsed_json(text: Seq<char>) -> Option<JsonModel>;

/// The compact text that `serde_json::to_string` writes for `tree`.
pub uninterp spec fn rendered_json(tree: JsonModel) -> Seq<char>;

#[verifier::external_type_specification]
#[verifier::external_body]
pub struct ExValue(serde_json::Value);

/// Copies a `serde_json::Value` into a tree, variant by variant. A number
/// is kept as `serde_json::Number::as_i64` gives it; the entries of an
/// object come in the order in which `serde_json::Map::iter` walks them.
/// Nothing is claimed of the result.
#[verifier::external_body]
fn tree_of_value(value: &serde_json::Value) -> Json {
    match value {
        serde_json::Value::Null => Json::Null,
        serde_json::Value::Bool(b) => Json::Bool(*b),
        serde_json::Value::Number(n) => Json::Number(n.as_i64()),
        serde_json::Value::String(s) => Json::Text(s.clone()),
        serde_json::Value::Array(a) => Json::List(a.iter().map(tree_of_value).collect()),
        serde_json::Value::Object(o) => Json::Record(
            o.iter().map(|(k, v)| Member { key: k.clone(), value: tree_of_value(v) }).collect(),
        ),
    }
}

/// Copies a tree into a `serde_json::Value`, variant by variant. A number
/// goes through `Value::from`, which turns `None` into `null`; the entries
/// of an object are collected into a `serde_json::Map`. Nothing is claimed of
/// the result.
#[verifier::external_body]
fn value_of_tree(tree: &Json) -> serde_json::Value {
    match tree {
        Json::Null => serde_json::Value::Null,
        Json::Bool(b) => serde_json::Value::Bool(*b),
        Json::Number(n) => serde_json::Value::from(*n),
        Json::Text(s) => serde_json::Value::String(s.clone()),
        Json::List(items) => serde_json::Value::Array(items.iter().map(value_of_tree).collect()),
        Json::Record(members) => serde_json::Value::Object(
            members.iter().map(|m| (m.key.clone(), value_of_tree(&m.value))).collect(),
        ),
    }
}

/// Calls `serde_json::from_str` for a `serde_json::Value`. The contract
/// gives the outcome its name, [`parsed_json`]: the same text always reads
/// as the same tree, or is always rejected.
#[verifier::external_body]
pub(crate) fn parse_text(text: &str) -> (tree: Option<Json>)
    ensures
        tree is Some <==> parsed_json(text@) is Some,
        tree matches Some(t) ==> parsed_json(text@) == Some(t@),
{
    match serde_json::from_str::<serde_json::Value>(text) {
        Ok(value) => Some(tree_of_value(&value)),
        Err(_) => None,
    }
}

/// Calls `serde_json::to_string` on the `serde_json::Value` made of `tree`.
/// The contract gives the text its name, [`rendered_json`]: the same tree
/// always gives the same text.
#[verifier::external_body]
pub(crate) fn render_text(tree: &Json) -> (text: String)
    ensures
        text@ == rendered_json(tree@),
{
    match serde_json::to_string(&value_of_tree(tree)) {
        Ok(text) => text,
        Err(_) => String::new(),
    }
}

} // verus!
