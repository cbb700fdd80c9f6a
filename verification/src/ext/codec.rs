//! Decoding and encoding: from a JSON value to the typed value of a field
//! and back, by shape alone. No rule on what a string holds is applied
//! here.

use crate::json::{
    find_key, find_member, items_model, key_position, lemma_array_view, lemma_key_position,
    lemma_object_view, lookup, members_model, Found, JsonModel, JsonValue,
};
use crate::string_map::{distinct_keys, lemma_pair_position, pair_position, StringMap};
use vstd::prelude::*;

verus! {

/// Why a value has not the shape that its field asks for.
#[derive(Clone, Copy, Debug, PartialEq, Eq)]
pub enum Fault {
    /// The value has another JSON type.
    WrongType,
    /// A member that must be there is not.
    Missing,
    /// A key stands twice in one object.
    Repeated,
}

/// The members that the objects of the manifest's fields may hold.
#[derive(Clone, Copy, Debug, PartialEq, Eq)]
pub enum Member {
    Access,
    Bin,
    Directory,
    Doc,
    Email,
    Example,
    Lib,
    Man,
    Name,
    Provenance,
    Registry,
    Tag,
    Test,
    Type,
    Url,
    Value,
}

impl Member {
    /// The member's key.
    pub open spec fn key(self) -> Seq<char> {
        match self {
            Member::Access => "access"@,
            Member::Bin => "bin"@,
            Member::Directory => "directory"@,
            Member::Doc => "doc"@,
            Member::Email => "email"@,
            Member::Example => "example"@,
            Member::Lib => "lib"@,
            Member::Man => "man"@,
            Member::Name => "name"@,
            Member::Provenance => "provenance"@,
            Member::Registry => "registry"@,
            Member::Tag => "tag"@,
            Member::Test => "test"@,
            Member::Type => "type"@,
            Member::Url => "url"@,
            Member::Value => "value"@,
        }
    }

    /// The member's key.
    pub fn name(self) -> (key: &'static str)
        ensures
            key@ == self.key(),
    {
        match self {
            Member::Access => "access",
            Member::Bin => "bin",
            Member::Directory => "directory",
            Member::Doc => "doc",
            Member::Email => "email",
            Member::Example => "example",
            Member::Lib => "lib",
            Member::Man => "man",
            Member::Name => "name",
            Member::Provenance => "provenance",
            Member::Registry => "registry",
            Member::Tag => "tag",
            Member::Test => "test",
            Member::Type => "type",
            Member::Url => "url",
            Member::Value => "value",
        }
    }
}

/// Where inside a field's value the shape is wrong, and why: at the item
/// of an array or the pair of a map with the given position, at a member,
/// or, with neither, at the value itself.
#[derive(Clone, Copy, Debug, PartialEq, Eq)]
pub struct Flaw {
    pub item: Option<usize>,
    pub member: Option<Member>,
    pub fault: Fault,
}

/// The value itself has the wrong type.
pub open spec fn wrong_type() -> Flaw {
    Flaw { item: None, member: None, fault: Fault::WrongType }
}

/// The flaw `fault` at the member `member`.
pub open spec fn at_member(member: Member, fault: Fault) -> Flaw {
    Flaw { item: None, member: Some(member), fault }
}

/// The flaw `flaw`, found in the item at position `index`.
pub open spec fn at_item(index: int, flaw: Flaw) -> Flaw {
    Flaw { item: Some(index as usize), member: flaw.member, fault: flaw.fault }
}

/// What the outcome of a decoding stands for.
pub open spec fn outcome_model<T: DeepView>(outcome: Result<T, Flaw>) -> Result<T::V, Flaw> {
    match outcome {
        Ok(value) => Ok(value.deep_view()),
        Err(flaw) => Err(flaw),
    }
}

/// A field value that can be decoded from a JSON value and encoded as
/// one.
pub trait Codec: DeepView + Sized {
    /// What `value` decodes to, or where its shape is wrong.
    spec fn decoded(value: JsonModel) -> Result<Self::V, Flaw>;

    /// The JSON value that stands for `model`.
    spec fn encoded(model: Self::V) -> JsonModel;

    /// Decodes `value`.
    fn decode(value: &JsonValue) -> (outcome: Result<Self, Flaw>)
        ensures
            outcome_model(outcome) == Self::decoded(value@),
    ;

    /// Encodes the value.
    fn encode(&self) -> (value: JsonValue)
        ensures
            value@ == Self::encoded(self.deep_view()),
    ;

    /// Encoding what a value decoded to, and decoding that again, gives
    /// what the value decoded to.
    proof fn lemma_round_trip(value: JsonModel)
        requires
            Self::decoded(value) is Ok,
        ensures
            Self::decoded(Self::encoded(Self::decoded(value)->Ok_0)) == Self::decoded(value),
    ;
}

/// A string.
pub open spec fn text_of(value: JsonModel) -> Result<Seq<char>, Flaw> {
    match value {
        JsonModel::String(text) => Ok(text),
        _ => Err(wrong_type()),
    }
}

/// `true` or `false`.
pub open spec fn flag_of(value: JsonModel) -> Result<bool, Flaw> {
    match value {
        JsonModel::Bool(flag) => Ok(flag),
        _ => Err(wrong_type()),
    }
}

/// The position of the first of `items`, at or after `from`, that is no
/// string, or the number of items.
pub open spec fn first_non_text(items: Seq<JsonModel>, from: int) -> int
    decreases items.len() - from,
{
    if from < 0 || from >= items.len() {
        items.len() as int
    } else if !(items[from] is String) {
        from
    } else {
        first_non_text(items, from + 1)
    }
}

/// An array of strings. The flaw is at the first item that is no string.
pub open spec fn text_list_of(value: JsonModel) -> Result<Seq<Seq<char>>, Flaw> {
    match value {
        JsonModel::Array(items) => {
            let bad = first_non_text(items, 0);
            if bad < items.len() {
                Err(at_item(bad, wrong_type()))
            } else {
                Ok(Seq::new(items.len(), |i: int| items[i]->String_0))
            }
        },
        _ => Err(wrong_type()),
    }
}

/// What is wrong with the pair at position `i`: its value is no string,
/// or its key stood before.
pub open spec fn pair_fault(members: Seq<(Seq<char>, JsonModel)>, i: int) -> Option<Fault> {
    if !(members[i].1 is String) {
        Some(Fault::WrongType)
    } else if key_position(members, members[i].0, 0) < i {
        Some(Fault::Repeated)
    } else {
        None
    }
}

/// The position of the first pair, at or after `from`, with which
/// something is wrong, or the number of pairs.
pub open spec fn first_faulty(members: Seq<(Seq<char>, JsonModel)>, from: int) -> int
    decreases members.len() - from,
{
    if from < 0 || from >= members.len() {
        members.len() as int
    } else if pair_fault(members, from) is Some {
        from
    } else {
        first_faulty(members, from + 1)
    }
}

/// An object whose values are strings and whose keys are distinct. The
/// flaw is at the first pair with which something is wrong.
pub open spec fn text_map_of(value: JsonModel) -> Result<Seq<(Seq<char>, Seq<char>)>, Flaw> {
    match value {
        JsonModel::Object(members) => {
            let bad = first_faulty(members, 0);
            if bad < members.len() {
                Err(
                    Flaw {
                        item: Some(bad as usize),
                        member: None,
                        fault: pair_fault(members, bad)->Some_0,
                    },
                )
            } else {
                Ok(Seq::new(members.len(), |i: int| (members[i].0, members[i].1->String_0)))
            }
        },
        _ => Err(wrong_type()),
    }
}

/// The string at the member `member`, which may be absent or `null`.
pub open spec fn optional_text(members: Seq<(Seq<char>, JsonModel)>, member: Member) -> Result<
    Option<Seq<char>>,
    Flaw,
> {
    match lookup(members, member.key()) {
        Found::Absent => Ok(None),
        Found::Repeated => Err(at_member(member, Fault::Repeated)),
        Found::Once(value) => match value {
            JsonModel::Null => Ok(None),
            JsonModel::String(text) => Ok(Some(text)),
            _ => Err(at_member(member, Fault::WrongType)),
        },
    }
}

/// The flag at the member `member`, which may be absent or `null`.
pub open spec fn optional_flag(members: Seq<(Seq<char>, JsonModel)>, member: Member) -> Result<
    Option<bool>,
    Flaw,
> {
    match lookup(members, member.key()) {
        Found::Absent => Ok(None),
        Found::Repeated => Err(at_member(member, Fault::Repeated)),
        Found::Once(value) => match value {
            JsonModel::Null => Ok(None),
            JsonModel::Bool(flag) => Ok(Some(flag)),
            _ => Err(at_member(member, Fault::WrongType)),
        },
    }
}

/// The string at the member `member`, which must be there.
pub open spec fn required_text(members: Seq<(Seq<char>, JsonModel)>, member: Member) -> Result<
    Seq<char>,
    Flaw,
> {
    match lookup(members, member.key()) {
        Found::Absent => Err(at_member(member, Fault::Missing)),
        Found::Repeated => Err(at_member(member, Fault::Repeated)),
        Found::Once(value) => match value {
            JsonModel::String(text) => Ok(text),
            _ => Err(at_member(member, Fault::WrongType)),
        },
    }
}

/// Reads a string.
pub fn read_text(value: &JsonValue) -> (outcome: Result<String, Flaw>)
    ensures
        outcome_model(outcome) == text_of(value@),
{
    match value {
        JsonValue::String(text) => Ok(text.clone()),
        _ => Err(Flaw { item: None, member: None, fault: Fault::WrongType }),
    }
}

/// Reads `true` or `false`.
pub fn read_flag(value: &JsonValue) -> (outcome: Result<bool, Flaw>)
    ensures
        outcome_model(outcome) == flag_of(value@),
{
    match value {
        JsonValue::Bool(flag) => Ok(*flag),
        _ => Err(Flaw { item: None, member: None, fault: Fault::WrongType }),
    }
}

/// Reads an array of strings.
pub fn read_text_list(value: &JsonValue) -> (outcome: Result<Vec<String>, Flaw>)
    ensures
        outcome_model(outcome) == text_list_of(value@),
{
    let items = match value {
        JsonValue::Array(items) => items,
        _ => {
            return Err(Flaw { item: None, member: None, fault: Fault::WrongType });
        },
    };
    proof {
        lemma_array_view(*items);
    }
    let ghost models = items_model(items@);
    let mut list: Vec<String> = Vec::new();
    let mut i: usize = 0;
    while i < items.len()
        invariant
            i <= items.len(),
            models == items_model(items@),
            value@ == JsonModel::Array(models),
            first_non_text(models, 0) == first_non_text(models, i as int),
            list@.len() == i,
            forall|j: int| 0 <= j < i ==> (#[trigger] list@[j])@ == models[j]->String_0,
        decreases items.len() - i,
    {
        match &items[i] {
            JsonValue::String(text) => {
                list.push(text.clone());
            },
            _ => {
                return Err(Flaw { item: Some(i), member: None, fault: Fault::WrongType });
            },
        }
        i += 1;
    }
    assert(list.deep_view() =~= Seq::new(models.len(), |i: int| models[i]->String_0));
    Ok(list)
}

/// Reads an object whose values are strings and whose keys are distinct.
pub fn read_text_map(value: &JsonValue) -> (outcome: Result<StringMap, Flaw>)
    ensures
        outcome_model(outcome) == text_map_of(value@),
{
    let members = match value {
        JsonValue::Object(members) => members,
        _ => {
            return Err(Flaw { item: None, member: None, fault: Fault::WrongType });
        },
    };
    proof {
        lemma_object_view(*members);
    }
    let ghost models = members_model(members@);
    let mut map = StringMap::new();
    let mut i: usize = 0;
    while i < members.len()
        invariant
            i <= members.len(),
            models == members_model(members@),
            value@ == JsonModel::Object(models),
            first_faulty(models, 0) == first_faulty(models, i as int),
            map@ == Seq::new(i as nat, |j: int| (models[j].0, models[j].1->String_0)),
        decreases members.len() - i,
    {
        let text = match &members[i].1 {
            JsonValue::String(text) => text,
            _ => {
                return Err(Flaw { item: Some(i), member: None, fault: Fault::WrongType });
            },
        };
        let first = find_key(members, members[i].0.as_str(), 0);
        proof {
            lemma_key_position(models, models[i as int].0, 0);
        }
        if first < i {
            return Err(Flaw { item: Some(i), member: None, fault: Fault::Repeated });
        }
        let ghost before = map@;
        assert(pair_position(before, members[i as int].0@, 0) == before.len()) by {
            lemma_pair_position(before, members[i as int].0@, 0);
        }
        map = map.with(members[i].0.clone(), text.clone());
        assert(map@ =~= Seq::new((i + 1) as nat, |j: int| (models[j].0, models[j].1->String_0)));
        i += 1;
    }
    Ok(map)
}

/// Reads the string at the member `member`, which may be absent or
/// `null`.
pub fn read_optional_text(members: &Vec<(String, JsonValue)>, member: Member) -> (outcome: Result<
    Option<String>,
    Flaw,
>)
    ensures
        outcome_model(outcome) == optional_text(members_model(members@), member),
{
    match find_member(members, member.name()) {
        Found::Absent => Ok(None),
        Found::Repeated => Err(Flaw { item: None, member: Some(member), fault: Fault::Repeated }),
        Found::Once(value) => match value {
            JsonValue::Null => Ok(None),
            JsonValue::String(text) => Ok(Some(text.clone())),
            _ => Err(Flaw { item: None, member: Some(member), fault: Fault::WrongType }),
        },
    }
}

/// Reads the flag at the member `member`, which may be absent or `null`.
pub fn read_optional_flag(members: &Vec<(String, JsonValue)>, member: Member) -> (outcome: Result<
    Option<bool>,
    Flaw,
>)
    ensures
        outcome_model(outcome) == optional_flag(members_model(members@), member),
{
    match find_member(members, member.name()) {
        Found::Absent => Ok(None),
        Found::Repeated => Err(Flaw { item: None, member: Some(member), fault: Fault::Repeated }),
        Found::Once(value) => match value {
            JsonValue::Null => Ok(None),
            JsonValue::Bool(flag) => Ok(Some(*flag)),
            _ => Err(Flaw { item: None, member: Some(member), fault: Fault::WrongType }),
        },
    }
}

/// Reads the string at the member `member`, which must be there.
pub fn read_required_text(members: &Vec<(String, JsonValue)>, member: Member) -> (outcome: Result<
    String,
    Flaw,
>)
    ensures
        outcome_model(outcome) == required_text(members_model(members@), member),
{
    match find_member(members, member.name()) {
        Found::Absent => Err(Flaw { item: None, member: Some(member), fault: Fault::Missing }),
        Found::Repeated => Err(Flaw { item: None, member: Some(member), fault: Fault::Repeated }),
        Found::Once(value) => match value {
            JsonValue::String(text) => Ok(text.clone()),
            _ => Err(Flaw { item: None, member: Some(member), fault: Fault::WrongType }),
        },
    }
}

/// The JSON string with the characters `text`.
pub open spec fn text_value(text: Seq<char>) -> JsonModel {
    JsonModel::String(text)
}

/// The JSON array of the strings of `list`.
pub open spec fn text_list_value(list: Seq<Seq<char>>) -> JsonModel {
    JsonModel::Array(Seq::new(list.len(), |i: int| JsonModel::String(list[i])))
}

/// The JSON object with the pairs of `pairs`, each value a string.
pub open spec fn text_map_value(pairs: Seq<(Seq<char>, Seq<char>)>) -> JsonModel {
    JsonModel::Object(Seq::new(pairs.len(), |i: int| (pairs[i].0, JsonModel::String(pairs[i].1))))
}

/// The JSON string that stands for a string that may be missing.
pub open spec fn optional_text_value(text: Option<Seq<char>>) -> Option<JsonModel> {
    match text {
        Some(text) => Some(JsonModel::String(text)),
        None => None,
    }
}

/// The JSON flag that stands for a flag that may be missing.
pub open spec fn optional_flag_value(flag: Option<bool>) -> Option<JsonModel> {
    match flag {
        Some(flag) => Some(JsonModel::Bool(flag)),
        None => None,
    }
}

/// The members that `slots` give: of each slot that holds a value, its
/// key with that value, in the order of the slots.
pub open spec fn present(slots: Seq<(Seq<char>, Option<JsonModel>)>) -> Seq<(Seq<char>, JsonModel)>
    decreases slots.len(),
{
    if slots.len() == 0 {
        Seq::empty()
    } else {
        let rest = present(slots.drop_first());
        match slots[0].1 {
            Some(value) => seq![(slots[0].0, value)] + rest,
            None => rest,
        }
    }
}

/// No key stands twice among `slots`.
pub open spec fn distinct_slots(slots: Seq<(Seq<char>, Option<JsonModel>)>) -> bool {
    forall|i: int, j: int| 0 <= i < j < slots.len() ==> slots[i].0 != slots[j].0
}

/// The number of slots before position `k` that hold a value.
pub open spec fn rank(slots: Seq<(Seq<char>, Option<JsonModel>)>, k: int) -> int
    decreases slots.len(),
{
    if slots.len() == 0 || k <= 0 {
        0
    } else {
        (if slots[0].1 is Some {
            1int
        } else {
            0int
        }) + rank(slots.drop_first(), k - 1)
    }
}

/// A key that no member has is absent.
pub proof fn lemma_lookup_absent(members: Seq<(Seq<char>, JsonModel)>, key: Seq<char>)
    requires
        forall|j: int| 0 <= j < members.len() ==> members[j].0 != key,
    ensures
        lookup(members, key) == Found::<JsonModel>::Absent,
{
    lemma_key_position(members, key, 0);
}

/// A key that the member at `i` has, and no other, is found once.
pub proof fn lemma_lookup_once(members: Seq<(Seq<char>, JsonModel)>, key: Seq<char>, i: int)
    requires
        0 <= i < members.len(),
        members[i].0 == key,
        forall|j: int| 0 <= j < members.len() && j != i ==> members[j].0 != key,
    ensures
        lookup(members, key) == Found::Once(members[i].1),
{
    lemma_key_position(members, key, 0);
    lemma_key_position(members, key, i + 1);
}

/// Every member that slots give has the key of one of the slots.
pub proof fn lemma_present_key(slots: Seq<(Seq<char>, Option<JsonModel>)>, p: int) -> (k: int)
    requires
        0 <= p < present(slots).len(),
    ensures
        0 <= k < slots.len(),
        slots[k].0 == present(slots)[p].0,
    decreases slots.len(),
{
    let rest = slots.drop_first();
    if slots[0].1 is Some {
        if p == 0 {
            0
        } else {
            1 + lemma_present_key(rest, p - 1)
        }
    } else {
        1 + lemma_present_key(rest, p)
    }
}

/// A slot that holds a value gives the member at the slot's rank.
pub proof fn lemma_present_rank(slots: Seq<(Seq<char>, Option<JsonModel>)>, k: int)
    requires
        0 <= k < slots.len(),
        slots[k].1 is Some,
    ensures
        0 <= rank(slots, k) < present(slots).len(),
        present(slots)[rank(slots, k)] == (slots[k].0, slots[k].1->Some_0),
    decreases slots.len(),
{
    if k > 0 {
        lemma_present_rank(slots.drop_first(), k - 1);
    }
}

/// Among slots with distinct keys, the key of slot `k` stands nowhere
/// among the members but at the slot's rank, and not even there where
/// the slot holds no value.
pub proof fn lemma_present_elsewhere(slots: Seq<(Seq<char>, Option<JsonModel>)>, k: int, q: int)
    requires
        distinct_slots(slots),
        0 <= k < slots.len(),
        0 <= q < present(slots).len(),
        slots[k].1 is None || q != rank(slots, k),
    ensures
        present(slots)[q].0 != slots[k].0,
    decreases slots.len(),
{
    let rest = slots.drop_first();
    assert(distinct_slots(rest)) by {
        assert forall|i: int, j: int| 0 <= i < j < rest.len() implies rest[i].0 != rest[j].0 by {
            assert(rest[i] == slots[i + 1] && rest[j] == slots[j + 1]);
        }
    }
    if slots[0].1 is Some {
        if q > 0 {
            if k == 0 {
                let j = lemma_present_key(rest, q - 1);
                assert(rest[j] == slots[j + 1]);
            } else {
                lemma_present_elsewhere(rest, k - 1, q - 1);
            }
        }
    } else {
        if k == 0 {
            let j = lemma_present_key(rest, q);
            assert(rest[j] == slots[j + 1]);
        } else {
            lemma_present_elsewhere(rest, k - 1, q);
        }
    }
}

/// Among the members that slots with distinct keys give, the key of a
/// slot is found once, with the slot's value, or is absent where the slot
/// holds none.
pub proof fn lemma_lookup_present(slots: Seq<(Seq<char>, Option<JsonModel>)>, k: int)
    requires
        distinct_slots(slots),
        0 <= k < slots.len(),
    ensures
        lookup(present(slots), slots[k].0) == (match slots[k].1 {
            Some(value) => Found::Once(value),
            None => Found::Absent,
        }),
{
    let members = present(slots);
    let key = slots[k].0;
    if slots[k].1 is Some {
        lemma_present_rank(slots, k);
        let p = rank(slots, k);
        assert forall|q: int| 0 <= q < members.len() && q != p implies members[q].0 != key by {
            lemma_present_elsewhere(slots, k, q);
        }
        lemma_lookup_once(members, key, p);
    } else {
        assert forall|q: int| 0 <= q < members.len() implies members[q].0 != key by {
            lemma_present_elsewhere(slots, k, q);
        }
        lemma_lookup_absent(members, key);
    }
}

/// Where every item from `from` on is a string, none is found that is not.
pub proof fn lemma_all_text(items: Seq<JsonModel>, from: int)
    requires
        0 <= from <= items.len(),
        forall|i: int| from <= i < items.len() ==> items[i] is String,
    ensures
        first_non_text(items, from) == items.len(),
    decreases items.len() - from,
{
    if from < items.len() {
        lemma_all_text(items, from + 1);
    }
}

/// An array of strings, written and read again, is the same array.
pub proof fn lemma_text_list_round_trip(list: Seq<Seq<char>>)
    ensures
        text_list_of(text_list_value(list)) == Ok::<Seq<Seq<char>>, Flaw>(list),
{
    let items = text_list_value(list)->Array_0;
    lemma_all_text(items, 0);
    assert(Seq::new(items.len(), |i: int| items[i]->String_0) =~= list);
}

/// Where no pair from `from` on has a fault, none is found that has one.
pub proof fn lemma_none_faulty(members: Seq<(Seq<char>, JsonModel)>, from: int)
    requires
        0 <= from <= members.len(),
        forall|i: int| from <= i < members.len() ==> pair_fault(members, i) is None,
    ensures
        first_faulty(members, from) == members.len(),
    decreases members.len() - from,
{
    if from < members.len() {
        lemma_none_faulty(members, from + 1);
    }
}

/// `first_faulty` gives the first position with a fault.
pub proof fn lemma_first_faulty(members: Seq<(Seq<char>, JsonModel)>, from: int)
    requires
        0 <= from <= members.len(),
    ensures
        from <= first_faulty(members, from) <= members.len(),
        forall|i: int| from <= i < first_faulty(members, from) ==> pair_fault(members, i) is None,
    decreases members.len() - from,
{
    if from < members.len() && pair_fault(members, from) is None {
        lemma_first_faulty(members, from + 1);
    }
}

/// The pairs that an object decodes to have distinct keys.
pub proof fn lemma_text_map_distinct(value: JsonModel)
    requires
        text_map_of(value) is Ok,
    ensures
        distinct_keys(text_map_of(value)->Ok_0),
{
    let members = value->Object_0;
    let pairs = text_map_of(value)->Ok_0;
    lemma_first_faulty(members, 0);
    assert forall|i: int, j: int| 0 <= i < j < pairs.len() implies pairs[i].0 != pairs[j].0 by {
        assert(pair_fault(members, j) is None);
        lemma_key_position(members, members[j].0, 0);
    }
}

/// Pairs with distinct keys, written as an object and read again, are the
/// same pairs.
pub proof fn lemma_text_map_round_trip(pairs: Seq<(Seq<char>, Seq<char>)>)
    requires
        distinct_keys(pairs),
    ensures
        text_map_of(text_map_value(pairs)) == Ok::<Seq<(Seq<char>, Seq<char>)>, Flaw>(pairs),
{
    let members = text_map_value(pairs)->Object_0;
    assert forall|i: int| 0 <= i < members.len() implies pair_fault(members, i) is None by {
        lemma_key_position(members, members[i].0, 0);
        let first = key_position(members, members[i].0, 0);
        if first < i {
            assert(pairs[first].0 == pairs[i].0);
        }
    }
    lemma_none_faulty(members, 0);
    assert(Seq::new(members.len(), |i: int| (members[i].0, members[i].1->String_0)) =~= pairs);
}

/// Different members have different keys.
pub proof fn lemma_member_keys()
    ensures
        forall|a: Member, b: Member| a != b ==> #[trigger] a.key() != #[trigger] b.key(),
{
    reveal_strlit("access");
    reveal_strlit("bin");
    reveal_strlit("directory");
    reveal_strlit("doc");
    reveal_strlit("email");
    reveal_strlit("example");
    reveal_strlit("lib");
    reveal_strlit("man");
    reveal_strlit("name");
    reveal_strlit("provenance");
    reveal_strlit("registry");
    reveal_strlit("tag");
    reveal_strlit("test");
    reveal_strlit("type");
    reveal_strlit("url");
    reveal_strlit("value");
    assert forall|a: Member, b: Member| a != b implies #[trigger] a.key() != #[trigger] b.key() by {
        if a.key().len() == b.key().len() {
            assert(a.key()[0] != b.key()[0] || a.key()[1] != b.key()[1]);
        }
    }
}

/// The slots of a record: of each member its key and the value it holds.
pub open spec fn record_slots(fields: Seq<(Member, Option<JsonModel>)>) -> Seq<
    (Seq<char>, Option<JsonModel>),
> {
    Seq::new(fields.len(), |i: int| (fields[i].0.key(), fields[i].1))
}

/// No member stands twice among `fields`.
pub open spec fn distinct_members(fields: Seq<(Member, Option<JsonModel>)>) -> bool {
    forall|i: int, j: int| 0 <= i < j < fields.len() ==> fields[i].0 != fields[j].0
}

/// The JSON object that stands for a record.
pub open spec fn record_value(fields: Seq<(Member, Option<JsonModel>)>) -> JsonModel {
    JsonModel::Object(present(record_slots(fields)))
}

/// In the object that stands for a record, the key of each member is
/// found once, with the member's value, or is absent where the member
/// holds none.
pub proof fn lemma_record_lookup(fields: Seq<(Member, Option<JsonModel>)>, k: int)
    requires
        distinct_members(fields),
        0 <= k < fields.len(),
    ensures
        lookup(present(record_slots(fields)), fields[k].0.key()) == (match fields[k].1 {
            Some(value) => Found::Once(value),
            None => Found::Absent,
        }),
{
    lemma_member_keys();
    lemma_lookup_present(record_slots(fields), k);
}

/// A string that may be missing, written as a member of a record and read
/// again, is the same.
pub proof fn lemma_record_text(
    fields: Seq<(Member, Option<JsonModel>)>,
    k: int,
    text: Option<Seq<char>>,
)
    requires
        distinct_members(fields),
        0 <= k < fields.len(),
        fields[k].1 == optional_text_value(text),
    ensures
        optional_text(present(record_slots(fields)), fields[k].0) == Ok::<Option<Seq<char>>, Flaw>(
            text,
        ),
{
    lemma_record_lookup(fields, k);
}

/// A flag that may be missing, written as a member of a record and read
/// again, is the same.
pub proof fn lemma_record_flag(fields: Seq<(Member, Option<JsonModel>)>, k: int, flag: Option<bool>)
    requires
        distinct_members(fields),
        0 <= k < fields.len(),
        fields[k].1 == optional_flag_value(flag),
    ensures
        optional_flag(present(record_slots(fields)), fields[k].0) == Ok::<Option<bool>, Flaw>(flag),
{
    lemma_record_lookup(fields, k);
}

/// A string, written as a member of a record and read again, is the same.
pub proof fn lemma_record_required(
    fields: Seq<(Member, Option<JsonModel>)>,
    k: int,
    text: Seq<char>,
)
    requires
        distinct_members(fields),
        0 <= k < fields.len(),
        fields[k].1 == Some(JsonModel::String(text)),
    ensures
        required_text(present(record_slots(fields)), fields[k].0) == Ok::<Seq<char>, Flaw>(text),
{
    lemma_record_lookup(fields, k);
}

/// What a list of slots stands for.
pub open spec fn slots_model(slots: Seq<(&'static str, Option<JsonValue>)>) -> Seq<
    (Seq<char>, Option<JsonModel>),
> {
    Seq::new(
        slots.len(),
        |i: int|
            (
                slots[i].0@,
                match slots[i].1 {
                    Some(value) => Some(value@),
                    None => None,
                },
            ),
    )
}

/// Writes a string.
pub fn write_text(text: &String) -> (value: JsonValue)
    ensures
        value@ == text_value(text@),
{
    JsonValue::String(text.clone())
}

/// Writes a string that may be missing.
pub fn write_optional_text(text: &Option<String>) -> (value: Option<JsonValue>)
    ensures
        (match value {
            Some(value) => Some(value@),
            None => None,
        }) == optional_text_value(text.deep_view()),
{
    match text {
        Some(text) => Some(JsonValue::String(text.clone())),
        None => None,
    }
}

/// Writes a flag that may be missing.
pub fn write_optional_flag(flag: &Option<bool>) -> (value: Option<JsonValue>)
    ensures
        (match value {
            Some(value) => Some(value@),
            None => None,
        }) == optional_flag_value(flag.deep_view()),
{
    match flag {
        Some(flag) => Some(JsonValue::Bool(*flag)),
        None => None,
    }
}

/// Writes an array of strings.
pub fn write_text_list(list: &Vec<String>) -> (value: JsonValue)
    ensures
        value@ == text_list_value(list.deep_view()),
{
    let mut items: Vec<JsonValue> = Vec::new();
    let mut i: usize = 0;
    while i < list.len()
        invariant
            i <= list.len(),
            items@.len() == i,
            forall|j: int| 0 <= j < i ==> (#[trigger] items@[j])@ == JsonModel::String(list@[j]@),
        decreases list.len() - i,
    {
        items.push(JsonValue::String(list[i].clone()));
        i += 1;
    }
    proof {
        lemma_array_view(items);
        assert(items_model(items@) =~= Seq::new(
            list.deep_view().len(),
            |i: int| JsonModel::String(list.deep_view()[i]),
        ));
    }
    JsonValue::Array(items)
}

/// Writes an object whose values are strings.
pub fn write_text_map(map: &StringMap) -> (value: JsonValue)
    ensures
        value@ == text_map_value(map@),
{
    let mut members: Vec<(String, JsonValue)> = Vec::new();
    let mut i: usize = 0;
    while i < map.len()
        invariant
            i <= map@.len(),
            members@.len() == i,
            forall|j: int|
                0 <= j < i ==> (#[trigger] members@[j]).0@ == map@[j].0 && members@[j].1@
                    == JsonModel::String(map@[j].1),
        decreases map@.len() - i,
    {
        members.push((map.key_at(i).clone(), JsonValue::String(map.value_at(i).clone())));
        i += 1;
    }
    proof {
        lemma_object_view(members);
        assert(members_model(members@) =~= Seq::new(
            map@.len(),
            |i: int| (map@[i].0, JsonModel::String(map@[i].1)),
        ));
    }
    JsonValue::Object(members)
}

/// Writes the object whose members are those that `slots` give.
pub fn write_object(slots: Vec<(&'static str, Option<JsonValue>)>) -> (value: JsonValue)
    ensures
        value@ == JsonModel::Object(present(slots_model(slots@))),
{
    let ghost all = slots_model(slots@);
    let mut members: Vec<(String, JsonValue)> = Vec::new();
    assert(all.skip(0) =~= all);
    assert(members_model(members@) + present(all) =~= present(all));
    for slot in it: slots
        invariant
            all == slots_model(it.seq()),
            members_model(members@) + present(all.skip(it.index() as int)) == present(all),
    {
        let ghost i = it.index() as int;
        let ghost before = members_model(members@);
        assert(all.skip(i).drop_first() =~= all.skip(i + 1));
        assert(all.skip(i)[0] == all[i]);
        match slot.1 {
            Some(value) => {
                members.push((slot.0.to_owned(), value));
                assert(members_model(members@) =~= before + seq![(all[i].0, value@)]);
                assert(members_model(members@) + present(all.skip(i + 1)) =~= before + present(
                    all.skip(i),
                ));
            },
            None => {},
        }
    }
    proof {
        assert(members_model(members@) + present(all.skip(all.len() as int)) =~= members_model(
            members@,
        ));
        lemma_object_view(members);
    }
    JsonValue::Object(members)
}

/// What the members of a record stand for.
pub open spec fn fields_model(fields: Seq<(Member, Option<JsonValue>)>) -> Seq<
    (Member, Option<JsonModel>),
> {
    Seq::new(
        fields.len(),
        |i: int|
            (
                fields[i].0,
                match fields[i].1 {
                    Some(value) => Some(value@),
                    None => None,
                },
            ),
    )
}

/// Writes the object that stands for a record.
pub fn write_record(fields: Vec<(Member, Option<JsonValue>)>) -> (value: JsonValue)
    ensures
        value@ == record_value(fields_model(fields@)),
{
    let ghost all = fields_model(fields@);
    let mut slots: Vec<(&'static str, Option<JsonValue>)> = Vec::new();
    for field in it: fields
        invariant
            all == fields_model(it.seq()),
            slots_model(slots@) == record_slots(all).take(it.index() as int),
    {
        let ghost before = slots_model(slots@);
        let ghost i = it.index() as int;
        slots.push((field.0.name(), field.1));
        assert(slots_model(slots@) =~= before.push(record_slots(all)[i]));
        assert(record_slots(all).take(i + 1) =~= before.push(record_slots(all)[i]));
    }
    assert(record_slots(all).take(all.len() as int) =~= record_slots(all));
    write_object(slots)
}

/// The position of the first of `items`, at or after `from`, that does not
/// decode, or the number of items.
pub open spec fn first_undecoded<T: Codec>(items: Seq<JsonModel>, from: int) -> int
    decreases items.len() - from,
{
    if from < 0 || from >= items.len() {
        items.len() as int
    } else if T::decoded(items[from]) is Err {
        from
    } else {
        first_undecoded::<T>(items, from + 1)
    }
}

/// An array whose items decode. The flaw is that of the first item that
/// does not.
pub open spec fn list_of<T: Codec>(value: JsonModel) -> Result<Seq<T::V>, Flaw> {
    match value {
        JsonModel::Array(items) => {
            let bad = first_undecoded::<T>(items, 0);
            if bad < items.len() {
                Err(at_item(bad, T::decoded(items[bad])->Err_0))
            } else {
                Ok(Seq::new(items.len(), |i: int| T::decoded(items[i])->Ok_0))
            }
        },
        _ => Err(wrong_type()),
    }
}

/// The JSON array of the values that stand for the items of `list`.
pub open spec fn list_value<T: Codec>(list: Seq<T::V>) -> JsonModel {
    JsonModel::Array(Seq::new(list.len(), |i: int| T::encoded(list[i])))
}

/// Reads an array whose items decode.
pub fn read_list<T: Codec>(value: &JsonValue) -> (outcome: Result<Vec<T>, Flaw>)
    ensures
        outcome_model(outcome) == list_of::<T>(value@),
{
    let items = match value {
        JsonValue::Array(items) => items,
        _ => {
            return Err(Flaw { item: None, member: None, fault: Fault::WrongType });
        },
    };
    proof {
        lemma_array_view(*items);
    }
    let ghost models = items_model(items@);
    let mut list: Vec<T> = Vec::new();
    let mut i: usize = 0;
    while i < items.len()
        invariant
            i <= items.len(),
            models == items_model(items@),
            value@ == JsonModel::Array(models),
            first_undecoded::<T>(models, 0) == first_undecoded::<T>(models, i as int),
            list@.len() == i,
            forall|j: int|
                0 <= j < i ==> T::decoded(models[j]) == Ok::<T::V, Flaw>(
                    (#[trigger] list@[j]).deep_view(),
                ),
        decreases items.len() - i,
    {
        match T::decode(&items[i]) {
            Ok(item) => {
                list.push(item);
            },
            Err(flaw) => {
                return Err(Flaw { item: Some(i), member: flaw.member, fault: flaw.fault });
            },
        }
        i += 1;
    }
    assert(list.deep_view() =~= Seq::new(models.len(), |i: int| T::decoded(models[i])->Ok_0));
    Ok(list)
}

/// Writes the array of the items of `list`.
pub fn write_list<T: Codec>(list: &Vec<T>) -> (value: JsonValue)
    ensures
        value@ == list_value::<T>(list.deep_view()),
{
    let mut items: Vec<JsonValue> = Vec::new();
    let mut i: usize = 0;
    while i < list.len()
        invariant
            i <= list.len(),
            items@.len() == i,
            forall|j: int|
                0 <= j < i ==> (#[trigger] items@[j])@ == T::encoded(list@[j].deep_view()),
        decreases list.len() - i,
    {
        items.push(list[i].encode());
        i += 1;
    }
    proof {
        lemma_array_view(items);
        assert(items_model(items@) =~= Seq::new(
            list.deep_view().len(),
            |i: int| T::encoded(list.deep_view()[i]),
        ));
    }
    JsonValue::Array(items)
}

/// `first_undecoded` gives the first position that does not decode.
pub proof fn lemma_first_undecoded<T: Codec>(items: Seq<JsonModel>, from: int)
    requires
        0 <= from <= items.len(),
    ensures
        from <= first_undecoded::<T>(items, from) <= items.len(),
        forall|i: int|
            from <= i < first_undecoded::<T>(items, from) ==> T::decoded(items[i]) is Ok,
        first_undecoded::<T>(items, from) < items.len() ==> T::decoded(
            items[first_undecoded::<T>(items, from)],
        ) is Err,
    decreases items.len() - from,
{
    if from < items.len() && T::decoded(items[from]) is Ok {
        lemma_first_undecoded::<T>(items, from + 1);
    }
}

/// The items that an array decoded to, written and read again, are the
/// same items.
pub proof fn lemma_list_round_trip<T: Codec>(value: JsonModel)
    requires
        list_of::<T>(value) is Ok,
    ensures
        list_of::<T>(list_value::<T>(list_of::<T>(value)->Ok_0)) == list_of::<T>(value),
{
    let items = value->Array_0;
    let list = list_of::<T>(value)->Ok_0;
    let again = list_value::<T>(list)->Array_0;
    lemma_first_undecoded::<T>(items, 0);
    assert forall|i: int| 0 <= i < again.len() implies T::decoded(again[i]) == Ok::<T::V, Flaw>(
        list[i],
    ) by {
        T::lemma_round_trip(items[i]);
    }
    lemma_first_undecoded::<T>(again, 0);
    assert(Seq::new(again.len(), |i: int| T::decoded(again[i])->Ok_0) =~= list);
}

} // verus!
