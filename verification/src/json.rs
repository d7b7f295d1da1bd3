//! A JSON document as the decoder reads it: the shape of every value and the
//! text of its strings. Numbers keep their place and lose their digits, since
//! nothing here reads them.

use vstd::prelude::*;
use crate::text::same_string;

verus! {

/// A JSON value. The members of an object keep the order in which they were
/// given; a lookup finds the first member with the key.
#[derive(Debug, PartialEq, Eq)]
pub enum Json {
    Null,
    Bool(bool),
    Number,
    Text(String),
    Array(Vec<Json>),
    Object(Vec<Member>),
}

/// One member of an object: a key and the value under it.
#[derive(Debug, PartialEq, Eq)]
pub struct Member {
    pub key: String,
    pub value: Json,
}

/// The mathematical value of a [`Json`].
pub ghost enum JsonModel {
    Null,
    Bool(bool),
    Number,
    Text(Seq<char>),
    Array(Seq<JsonModel>),
    Object(Seq<MemberModel>),
}

/// The mathematical value of a [`Member`].
pub ghost struct MemberModel {
    pub key: Seq<char>,
    pub value: JsonModel,
}

impl View for Json {
    type V = JsonModel;

    open spec fn view(&self) -> JsonModel
        decreases self,
    {
        match self {
            Json::Null => JsonModel::Null,
            Json::Bool(b) => JsonModel::Bool(*b),
            Json::Number => JsonModel::Number,
            Json::Text(s) => JsonModel::Text(s@),
            Json::Array(items) => JsonModel::Array(
                Seq::new(
                    items@.len(),
                    |i: int|
                        if 0 <= i < items@.len() {
                            items@[i]@
                        } else {
                            JsonModel::Null
                        },
                ),
            ),
            Json::Object(members) => JsonModel::Object(
                Seq::new(
                    members@.len(),
                    |i: int|
                        if 0 <= i < members@.len() {
                            MemberModel { key: members@[i].key@, value: members@[i].value@ }
                        } else {
                            MemberModel { key: Seq::empty(), value: JsonModel::Null }
                        },
                ),
            ),
        }
    }
}

/// The model of an optional reference to a value.
pub open spec fn opt_model(o: Option<&Json>) -> Option<JsonModel> {
    match o {
        Some(j) => Some(j@),
        None => None,
    }
}

/// The value of the first member named `key` among `members`.
pub open spec fn first_member(members: Seq<MemberModel>, key: Seq<char>) -> Option<JsonModel>
    decreases members.len(),
{
    if members.len() == 0 {
        None
    } else if members[0].key == key {
        Some(members[0].value)
    } else {
        first_member(members.subrange(1, members.len() as int), key)
    }
}

/// The member `key` of `value`: present only in an object that has it.
pub open spec fn member_of(value: JsonModel, key: Seq<char>) -> Option<JsonModel> {
    match value {
        JsonModel::Object(members) => first_member(members, key),
        _ => None,
    }
}

/// The text of `value`, if it is a string.
pub open spec fn text_of(value: JsonModel) -> Option<Seq<char>> {
    match value {
        JsonModel::Text(s) => Some(s),
        _ => None,
    }
}

/// The text of the string found by following `first` and then `second`.
pub open spec fn text_at2(value: JsonModel, first: Seq<char>, second: Seq<char>) -> Option<
    Seq<char>,
> {
    match member_of(value, first) {
        Some(inner) => match member_of(inner, second) {
            Some(leaf) => text_of(leaf),
            None => None,
        },
        None => None,
    }
}

/// The text of the string member `key`.
pub open spec fn text_at(value: JsonModel, key: Seq<char>) -> Option<Seq<char>> {
    match member_of(value, key) {
        Some(leaf) => text_of(leaf),
        None => None,
    }
}

/// The view of an optional string slice.
pub open spec fn opt_str_view(o: Option<&str>) -> Option<Seq<char>> {
    match o {
        Some(s) => Some(s@),
        None => None,
    }
}

/// The model of an object lists the models of its members, in their order.
pub proof fn lemma_object_model(members: Vec<Member>)
    ensures
        Json::Object(members)@ is Object,
        Json::Object(members)@->Object_0.len() == members@.len(),
        forall|k: int|
            0 <= k < members@.len() ==> {
                &&& (#[trigger] Json::Object(members)@->Object_0[k]).key == members@[k].key@
                &&& Json::Object(members)@->Object_0[k].value == members@[k].value@
            },
{
}

/// The model of an array lists the models of its items, in their order.
pub proof fn lemma_array_model(items: Vec<Json>)
    ensures
        Json::Array(items)@ is Array,
        Json::Array(items)@->Array_0.len() == items@.len(),
        forall|k: int|
            0 <= k < items@.len() ==> Json::Array(items)@->Array_0[k] == (#[trigger] items@[k])@,
{
    let built = Seq::new(
        items@.len(),
        |i: int|
            if 0 <= i < items@.len() {
                items@[i]@
            } else {
                JsonModel::Null
            },
    );
    assert(Json::Array(items)@->Array_0 == built);
}

impl Json {
    /// The member `key` of an object; `None` for a missing member and for
    /// anything that is not an object.
    pub fn member<'a>(&'a self, key: &str) -> (r: Option<&'a Json>)
        ensures
            opt_model(r) == member_of(self@, key@),
    {
        match self {
            Json::Object(members) => {
                let ghost all = self@->Object_0;
                proof {
                    lemma_object_model(*members);
                    assert(all.subrange(0, all.len() as int) == all);
                }
                let wanted = key.to_owned();
                let mut i: usize = 0;
                while i < members.len()
                    invariant
                        i <= members.len(),
                        wanted@ == key@,
                        self@ == JsonModel::Object(all),
                        all.len() == members@.len(),
                        forall|k: int|
                            0 <= k < members@.len() ==> {
                                &&& (#[trigger] all[k]).key == members@[k].key@
                                &&& all[k].value == members@[k].value@
                            },
                        first_member(all, key@) == first_member(
                            all.subrange(i as int, all.len() as int),
                            key@,
                        ),
                    decreases members.len() - i,
                {
                    let ghost rest = all.subrange(i as int, all.len() as int);
                    assert(rest[0] == all[i as int]);
                    assert(rest.subrange(1, rest.len() as int) == all.subrange(
                        i as int + 1,
                        all.len() as int,
                    ));
                    if same_string(&members[i].key, &wanted) {
                        assert(first_member(rest, key@) == Some(all[i as int].value));
                        return Some(&members[i].value);
                    }
                    i += 1;
                }
                assert(all.subrange(i as int, all.len() as int).len() == 0);
                None
            },
            _ => None,
        }
    }

    /// The text of a string; `None` for every other kind of value.
    pub fn text<'a>(&'a self) -> (r: Option<&'a str>)
        ensures
            opt_str_view(r) == text_of(self@),
    {
        match self {
            Json::Text(s) => Some(s.as_str()),
            _ => None,
        }
    }

    /// The text of the string member `key`.
    pub fn text_member<'a>(&'a self, key: &str) -> (r: Option<&'a str>)
        ensures
            opt_str_view(r) == text_at(self@, key@),
    {
        match self.member(key) {
            Some(leaf) => leaf.text(),
            None => None,
        }
    }

    /// The text of the string reached through the member `first` and then its
    /// member `second`.
    pub fn text_member2<'a>(&'a self, first: &str, second: &str) -> (r: Option<&'a str>)
        ensures
            opt_str_view(r) == text_at2(self@, first@, second@),
    {
        match self.member(first) {
            Some(inner) => inner.text_member(second),
            None => None,
        }
    }
}

/// `serde_json::Value`, a parsed document. It is carried from the parser to
/// the copy into a [`Json`], and read nowhere else.
#[verifier::external_type_specification]
#[verifier::external_body]
pub struct ExValue(serde_json::Value);

/// `serde_json::Error`, the error of the parser. Nothing is read from it.
#[verifier::external_type_specification]
#[verifier::external_body]
pub struct ExError(serde_json::Error);

/// What a `serde_json::Value` holds: its shape, the text of its strings, and
/// the members of each object in the order in which its map yields them.
pub uninterp spec fn value_model(value: serde_json::Value) -> JsonModel;

/// The document that `text` is, by JSON's grammar as `serde_json` reads it;
/// `None` where `text` is not one document.
pub uninterp spec fn parsed_document(text: Seq<char>) -> Option<JsonModel>;

/// Calls `serde_json::from_str` for a `serde_json::Value`. The outcome depends
/// on `text` alone: either `text` is a document and the value holds it, or it
/// is none and an error comes back.
#[verifier::external_body]
pub(crate) fn parse_value(text: &str) -> (r: Result<serde_json::Value, serde_json::Error>)
    ensures
        match r {
            Ok(value) => parsed_document(text@) == Some(value_model(value)),
            Err(_) => parsed_document(text@) is None,
        },
{
    serde_json::from_str::<serde_json::Value>(text)
}

/// Copies a `serde_json::Value` into a [`Json`], variant by variant: strings
/// and booleans as they are, array items and object members in their order,
/// numbers without their digits.
#[verifier::external_body]
pub(crate) fn json_of_value(value: &serde_json::Value) -> (r: Json)
    ensures
        r@ == value_model(*value),
{
    match value {
        serde_json::Value::Null => Json::Null,
        serde_json::Value::Bool(b) => Json::Bool(*b),
        serde_json::Value::Number(_) => Json::Number,
        serde_json::Value::String(s) => Json::Text(s.clone()),
        serde_json::Value::Array(items) => Json::Array(items.iter().map(json_of_value).collect()),
        serde_json::Value::Object(map) => Json::Object(
            map.iter().map(|(k, v)| Member { key: k.clone(), value: json_of_value(v) }).collect(),
        ),
    }
}

/// Reads `text` as one JSON document.
pub fn parse_json(text: &str) -> (r: Option<Json>)
    ensures
        match r {
            Some(j) => parsed_document(text@) == Some(j@),
            None => parsed_document(text@) is None,
        },
{
    match parse_value(text) {
        Ok(value) => Some(json_of_value(&value)),
        Err(_) => None,
    }
}

} // verus!
