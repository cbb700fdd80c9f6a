//! The value tree of a JSON document, and the strict parser that builds it.

use crate::text::str_eq;
use vstd::prelude::*;

verus! {

/// A JSON value. An object keeps its members as a list of pairs.
#[derive(Debug, PartialEq)]
pub enum JsonValue {
    Null,
    Bool(bool),
    /// A number, by its digits.
    Number(String),
    String(String),
    Array(Vec<JsonValue>),
    Object(Vec<(String, JsonValue)>),
}

/// What a `JsonValue` stands for.
pub enum JsonModel {
    Null,
    Bool(bool),
    Number(Seq<char>),
    String(Seq<char>),
    Array(Seq<JsonModel>),
    Object(Seq<(Seq<char>, JsonModel)>),
}

/// What `value` stands for.
pub open spec fn model_of(value: JsonValue) -> JsonModel
    decreases value,
{
    match value {
        JsonValue::Null => JsonModel::Null,
        JsonValue::Bool(b) => JsonModel::Bool(b),
        JsonValue::Number(digits) => JsonModel::Number(digits@),
        JsonValue::String(text) => JsonModel::String(text@),
        JsonValue::Array(items) => JsonModel::Array(
            Seq::new(
                items.len() as nat,
                |i: int|
                    if 0 <= i < items.len() {
                        model_of(items[i])
                    } else {
                        JsonModel::Null
                    },
            ),
        ),
        JsonValue::Object(members) => JsonModel::Object(
            Seq::new(
                members.len() as nat,
                |i: int|
                    if 0 <= i < members.len() {
                        (members[i].0@, model_of(members[i].1))
                    } else {
                        (Seq::empty(), JsonModel::Null)
                    },
            ),
        ),
    }
}

impl View for JsonValue {
    type V = JsonModel;

    open spec fn view(&self) -> JsonModel {
        model_of(*self)
    }
}

impl Clone for JsonValue {
    fn clone(&self) -> (copy: JsonValue)
        ensures
            copy@ == self@,
        decreases self,
    {
        match self {
            JsonValue::Null => JsonValue::Null,
            JsonValue::Bool(flag) => JsonValue::Bool(*flag),
            JsonValue::Number(digits) => JsonValue::Number(digits.clone()),
            JsonValue::String(text) => JsonValue::String(text.clone()),
            JsonValue::Array(items) => {
                let mut copies: Vec<JsonValue> = Vec::new();
                let mut i: usize = 0;
                while i < items.len()
                    invariant
                        i <= items.len(),
                        *self == JsonValue::Array(*items),
                        copies@.len() == i,
                        forall|j: int| 0 <= j < i ==> (#[trigger] copies@[j])@ == items@[j]@,
                    decreases items.len() - i,
                {
                    proof {
                        assert(decreases_to!(*self => self->Array_0));
                        assert(decreases_to!(*items => items[i as int]));
                    }
                    copies.push(items[i].clone());
                    i += 1;
                }
                proof {
                    lemma_array_view(*items);
                    lemma_array_view(copies);
                    assert(items_model(copies@) =~= items_model(items@));
                }
                JsonValue::Array(copies)
            },
            JsonValue::Object(members) => {
                let mut copies: Vec<(String, JsonValue)> = Vec::new();
                let mut i: usize = 0;
                while i < members.len()
                    invariant
                        i <= members.len(),
                        *self == JsonValue::Object(*members),
                        copies@.len() == i,
                        forall|j: int|
                            0 <= j < i ==> (#[trigger] copies@[j]).0@ == members@[j].0@
                                && copies@[j].1@ == members@[j].1@,
                    decreases members.len() - i,
                {
                    proof {
                        assert(decreases_to!(*self => self->Object_0));
                        assert(decreases_to!(*members => members[i as int]));
                        assert(decreases_to!(members[i as int] => members[i as int].1));
                    }
                    copies.push((members[i].0.clone(), members[i].1.clone()));
                    i += 1;
                }
                proof {
                    lemma_object_view(*members);
                    lemma_object_view(copies);
                    assert(members_model(copies@) =~= members_model(members@));
                }
                JsonValue::Object(copies)
            },
        }
    }
}

/// The members of an object, each by its key and what its value stands for.
pub open spec fn members_model(members: Seq<(String, JsonValue)>) -> Seq<(Seq<char>, JsonModel)> {
    Seq::new(members.len(), |i: int| (members[i].0@, members[i].1@))
}

/// The items of an array, each by what it stands for.
pub open spec fn items_model(items: Seq<JsonValue>) -> Seq<JsonModel> {
    Seq::new(items.len(), |i: int| items[i]@)
}

/// An object stands for the object of what its members stand for.
pub proof fn lemma_object_view(members: Vec<(String, JsonValue)>)
    ensures
        JsonValue::Object(members)@ == JsonModel::Object(members_model(members@)),
{
    assert(JsonValue::Object(members)@->Object_0 =~= members_model(members@));
}

/// An array stands for the array of what its items stand for.
pub proof fn lemma_array_view(items: Vec<JsonValue>)
    ensures
        JsonValue::Array(items)@ == JsonModel::Array(items_model(items@)),
{
    assert(JsonValue::Array(items)@->Array_0 =~= items_model(items@));
}

/// What looking a key up in an object gives.
pub enum Found<T> {
    /// No member has the key.
    Absent,
    /// Exactly one member has the key; this is its value.
    Once(T),
    /// Two or more members have the key.
    Repeated,
}

/// The position of the first member at or after `from` whose key is `key`,
/// or the number of members.
pub open spec fn key_position(
    members: Seq<(Seq<char>, JsonModel)>,
    key: Seq<char>,
    from: int,
) -> int
    decreases members.len() - from,
{
    if from < 0 || from >= members.len() {
        members.len() as int
    } else if members[from].0 == key {
        from
    } else {
        key_position(members, key, from + 1)
    }
}

/// Looks `key` up among `members`.
pub open spec fn lookup(members: Seq<(Seq<char>, JsonModel)>, key: Seq<char>) -> Found<
    JsonModel,
> {
    let first = key_position(members, key, 0);
    if first >= members.len() {
        Found::Absent
    } else if key_position(members, key, first + 1) < members.len() {
        Found::Repeated
    } else {
        Found::Once(members[first].1)
    }
}

/// `key_position` gives a position at or after `from` that holds the key,
/// with no such position before it.
pub proof fn lemma_key_position(members: Seq<(Seq<char>, JsonModel)>, key: Seq<char>, from: int)
    requires
        0 <= from <= members.len(),
    ensures
        from <= key_position(members, key, from) <= members.len(),
        key_position(members, key, from) < members.len() ==> members[key_position(
            members,
            key,
            from,
        )].0 == key,
        forall|i: int| from <= i < key_position(members, key, from) ==> members[i].0 != key,
    decreases members.len() - from,
{
    if from < members.len() && members[from].0 != key {
        lemma_key_position(members, key, from + 1);
    }
}

/// The position of the first member at or after `from` whose key is `key`,
/// or the number of members.
pub fn find_key(members: &Vec<(String, JsonValue)>, key: &str, from: usize) -> (at: usize)
    requires
        from <= members.len(),
    ensures
        at == key_position(members_model(members@), key@, from as int),
{
    let mut at: usize = from;
    while at < members.len()
        invariant
            from <= at <= members.len(),
            key_position(members_model(members@), key@, from as int) == key_position(
                members_model(members@),
                key@,
                at as int,
            ),
        decreases members.len() - at,
    {
        if str_eq(members[at].0.as_str(), key) {
            return at;
        }
        at += 1;
    }
    at
}

/// Looks `key` up among the members of an object.
pub fn find_member<'a>(members: &'a Vec<(String, JsonValue)>, key: &str) -> (found: Found<
    &'a JsonValue,
>)
    ensures
        lookup(members_model(members@), key@) == match found {
            Found::Absent => Found::Absent,
            Found::Once(value) => Found::Once(value@),
            Found::Repeated => Found::Repeated,
        },
{
    let first = find_key(members, key, 0);
    if first >= members.len() {
        return Found::Absent;
    }
    if find_key(members, key, first + 1) < members.len() {
        return Found::Repeated;
    }
    Found::Once(&members[first].1)
}

/// Where and why a text is no JSON document.
#[derive(Clone, Debug, PartialEq, Eq)]
pub struct JsonSyntaxError {
    /// The line of the fault, counted from one.
    pub line: usize,
    /// The column of the fault, counted from one.
    pub column: usize,
    pub message: String,
}

/// What a `JsonSyntaxError` stands for.
pub struct JsonSyntaxErrorModel {
    pub line: nat,
    pub column: nat,
    pub message: Seq<char>,
}

impl View for JsonSyntaxError {
    type V = JsonSyntaxErrorModel;

    open spec fn view(&self) -> JsonSyntaxErrorModel {
        JsonSyntaxErrorModel {
            line: self.line as nat,
            column: self.column as nat,
            message: self.message@,
        }
    }
}

/// The value tree of `serde_json`, which is carried and never looked into.
#[verifier::external_type_specification]
#[verifier::external_body]
pub struct ExValue(serde_json::Value);

/// What `serde_json` reads `text` as: the value it parses to, or the place
/// and message of the error it reports.
pub uninterp spec fn json_document(text: Seq<char>) -> Result<JsonModel, JsonSyntaxErrorModel>;

/// Copies a `serde_json::Value` into a `JsonValue`, variant by variant. A
/// number is kept as `serde_json` prints it, an object's members in the
/// order in which its map hands them out.
#[verifier::external_body]
fn value_from(value: serde_json::Value) -> JsonValue {
    match value {
        serde_json::Value::Null => JsonValue::Null,
        serde_json::Value::Bool(b) => JsonValue::Bool(b),
        serde_json::Value::Number(n) => JsonValue::Number(n.to_string()),
        serde_json::Value::String(s) => JsonValue::String(s),
        serde_json::Value::Array(a) => JsonValue::Array(a.into_iter().map(value_from).collect()),
        serde_json::Value::Object(m) => JsonValue::Object(
            m.into_iter().map(|(k, v)| (k, value_from(v))).collect(),
        ),
    }
}

/// Calls `serde_json::from_str` for a `serde_json::Value`. The contract
/// claims only that the outcome is the one that `json_document` names for
/// this text: the copied value, or the error's line, column and message.
#[verifier::external_body]
fn read_json(text: &str) -> (outcome: Result<JsonValue, JsonSyntaxError>)
    ensures
        json_document(text@) == match outcome {
            Ok(value) => Ok::<JsonModel, JsonSyntaxErrorModel>(value@),
            Err(error) => Err::<JsonModel, JsonSyntaxErrorModel>(error@),
        },
{
    match serde_json::from_str::<serde_json::Value>(text) {
        Ok(value) => Ok(value_from(value)),
        Err(e) => {
            Err(JsonSyntaxError { line: e.line(), column: e.column(), message: e.to_string() })
        },
    }
}

/// Parses `text` as strict JSON.
pub fn parse_value(text: &str) -> (outcome: Result<JsonValue, JsonSyntaxError>)
    ensures
        json_document(text@) == match outcome {
            Ok(value) => Ok::<JsonModel, JsonSyntaxErrorModel>(value@),
            Err(error) => Err::<JsonModel, JsonSyntaxErrorModel>(error@),
        },
{
    read_json(text)
}

} // verus!
