//! The syntax tree of a JSON document: where in the text each value stands.
//! It serves to find byte ranges and holds no values.

use crate::json::{json_document, parse_value};
use crate::text::str_eq;
use jsonc_parser::ast::Value;
use vstd::prelude::*;

verus! {

/// The bytes of the source text from `start` up to, not including, `end`.
#[derive(Clone, Copy, Debug, PartialEq, Eq)]
pub struct ByteRange {
    pub start: usize,
    pub end: usize,
}

/// A value of the document, with the range it takes in the text.
#[derive(Debug, PartialEq)]
pub enum SyntaxValue {
    StringLit(ByteRange),
    NumberLit(ByteRange),
    BooleanLit(ByteRange),
    NullKeyword(ByteRange),
    Array(ByteRange, Vec<SyntaxValue>),
    Object(ByteRange, Vec<ObjectProp>),
}

/// A member of an object: its key and its value. The range runs from the
/// key to the end of the value.
#[derive(Debug, PartialEq)]
pub struct ObjectProp {
    pub range: ByteRange,
    pub name: String,
    pub value: SyntaxValue,
}

/// What a `SyntaxValue` stands for.
pub enum SyntaxModel {
    StringLit(ByteRange),
    NumberLit(ByteRange),
    BooleanLit(ByteRange),
    NullKeyword(ByteRange),
    Array(ByteRange, Seq<SyntaxModel>),
    Object(ByteRange, Seq<PropModel>),
}

/// What an `ObjectProp` stands for.
pub struct PropModel {
    pub range: ByteRange,
    pub name: Seq<char>,
    pub value: SyntaxModel,
}

/// What `value` stands for.
pub open spec fn syntax_model(value: SyntaxValue) -> SyntaxModel
    decreases value,
{
    match value {
        SyntaxValue::StringLit(range) => SyntaxModel::StringLit(range),
        SyntaxValue::NumberLit(range) => SyntaxModel::NumberLit(range),
        SyntaxValue::BooleanLit(range) => SyntaxModel::BooleanLit(range),
        SyntaxValue::NullKeyword(range) => SyntaxModel::NullKeyword(range),
        SyntaxValue::Array(range, elements) => SyntaxModel::Array(
            range,
            Seq::new(
                elements.len() as nat,
                |i: int|
                    if 0 <= i < elements.len() {
                        syntax_model(elements[i])
                    } else {
                        SyntaxModel::NullKeyword(range)
                    },
            ),
        ),
        SyntaxValue::Object(range, properties) => SyntaxModel::Object(
            range,
            Seq::new(
                properties.len() as nat,
                |i: int|
                    if 0 <= i < properties.len() {
                        PropModel {
                            range: properties[i].range,
                            name: properties[i].name@,
                            value: syntax_model(properties[i].value),
                        }
                    } else {
                        PropModel {
                            range,
                            name: Seq::empty(),
                            value: SyntaxModel::NullKeyword(range),
                        }
                    },
            ),
        ),
    }
}

impl View for SyntaxValue {
    type V = SyntaxModel;

    open spec fn view(&self) -> SyntaxModel {
        syntax_model(*self)
    }
}

impl View for ObjectProp {
    type V = PropModel;

    open spec fn view(&self) -> PropModel {
        PropModel { range: self.range, name: self.name@, value: self.value@ }
    }
}

impl Clone for SyntaxValue {
    fn clone(&self) -> (copy: SyntaxValue)
        ensures
            copy@ == self@,
        decreases self,
    {
        match self {
            SyntaxValue::StringLit(range) => SyntaxValue::StringLit(*range),
            SyntaxValue::NumberLit(range) => SyntaxValue::NumberLit(*range),
            SyntaxValue::BooleanLit(range) => SyntaxValue::BooleanLit(*range),
            SyntaxValue::NullKeyword(range) => SyntaxValue::NullKeyword(*range),
            SyntaxValue::Array(range, elements) => {
                let mut copies: Vec<SyntaxValue> = Vec::new();
                let mut i: usize = 0;
                while i < elements.len()
                    invariant
                        i <= elements.len(),
                        *self == SyntaxValue::Array(*range, *elements),
                        copies@.len() == i,
                        forall|j: int| 0 <= j < i ==> (#[trigger] copies@[j])@ == elements@[j]@,
                    decreases elements.len() - i,
                {
                    proof {
                        assert(decreases_to!(*self => self->Array_1));
                        assert(decreases_to!(*elements => elements[i as int]));
                    }
                    copies.push(elements[i].clone());
                    i += 1;
                }
                proof {
                    lemma_syntax_array_view(*range, *elements);
                    lemma_syntax_array_view(*range, copies);
                    assert(elements_model(copies@) =~= elements_model(elements@));
                }
                SyntaxValue::Array(*range, copies)
            },
            SyntaxValue::Object(range, properties) => {
                let mut copies: Vec<ObjectProp> = Vec::new();
                let mut i: usize = 0;
                while i < properties.len()
                    invariant
                        i <= properties.len(),
                        *self == SyntaxValue::Object(*range, *properties),
                        copies@.len() == i,
                        forall|j: int| 0 <= j < i ==> (#[trigger] copies@[j])@ == properties@[j]@,
                    decreases properties.len() - i,
                {
                    proof {
                        assert(decreases_to!(*self => self->Object_1));
                        assert(decreases_to!(*properties => properties[i as int]));
                        assert(decreases_to!(properties[i as int] => properties[i as int].value));
                    }
                    copies.push(
                        ObjectProp {
                            range: properties[i].range,
                            name: properties[i].name.clone(),
                            value: properties[i].value.clone(),
                        },
                    );
                    i += 1;
                }
                proof {
                    lemma_syntax_object_view(*range, *properties);
                    lemma_syntax_object_view(*range, copies);
                    assert(props_model(copies@) =~= props_model(properties@));
                }
                SyntaxValue::Object(*range, copies)
            },
        }
    }
}

impl Clone for ObjectProp {
    fn clone(&self) -> (copy: ObjectProp)
        ensures
            copy@ == self@,
    {
        ObjectProp { range: self.range, name: self.name.clone(), value: self.value.clone() }
    }
}

/// The members of an object, each by what it stands for.
pub open spec fn props_model(properties: Seq<ObjectProp>) -> Seq<PropModel> {
    Seq::new(properties.len(), |i: int| properties[i]@)
}

/// The elements of an array, each by what it stands for.
pub open spec fn elements_model(elements: Seq<SyntaxValue>) -> Seq<SyntaxModel> {
    Seq::new(elements.len(), |i: int| elements[i]@)
}

/// An object stands for the object of what its members stand for.
pub proof fn lemma_syntax_object_view(range: ByteRange, properties: Vec<ObjectProp>)
    ensures
        SyntaxValue::Object(range, properties)@ == SyntaxModel::Object(
            range,
            props_model(properties@),
        ),
{
    assert(SyntaxValue::Object(range, properties)@->Object_1 =~= props_model(properties@));
}

/// An array stands for the array of what its elements stand for.
pub proof fn lemma_syntax_array_view(range: ByteRange, elements: Vec<SyntaxValue>)
    ensures
        SyntaxValue::Array(range, elements)@ == SyntaxModel::Array(
            range,
            elements_model(elements@),
        ),
{
    assert(SyntaxValue::Array(range, elements)@->Array_1 =~= elements_model(elements@));
}

/// The first of `properties`, from position `from` on, whose name is
/// `name`.
pub open spec fn first_named(properties: Seq<PropModel>, name: Seq<char>, from: int) -> Option<
    PropModel,
>
    decreases properties.len() - from,
{
    if from < 0 || from >= properties.len() {
        None
    } else if properties[from].name == name {
        Some(properties[from])
    } else {
        first_named(properties, name, from + 1)
    }
}

/// Two of `properties` have the name `name`.
pub open spec fn named_twice(properties: Seq<PropModel>, name: Seq<char>) -> bool {
    exists|i: int, j: int|
        0 <= i < j < properties.len() && (#[trigger] properties[i]).name == name
            && (#[trigger] properties[j]).name == name
}

/// Two of `properties` have the same name.
pub open spec fn has_twins(properties: Seq<PropModel>) -> bool {
    exists|i: int, j: int|
        0 <= i < j < properties.len() && (#[trigger] properties[i]).name
            == (#[trigger] properties[j]).name
}

/// Somewhere in the value of one of `properties`, from position `from` on,
/// an object holds a key twice.
pub open spec fn any_member_repeats(properties: Seq<PropModel>, from: int) -> bool
    decreases properties, properties.len() - from,
{
    if 0 <= from < properties.len() {
        repeats_a_key(properties[from].value) || any_member_repeats(properties, from + 1)
    } else {
        false
    }
}

/// Somewhere in one of `elements`, from position `from` on, an object
/// holds a key twice.
pub open spec fn any_element_repeats(elements: Seq<SyntaxModel>, from: int) -> bool
    decreases elements, elements.len() - from,
{
    if 0 <= from < elements.len() {
        repeats_a_key(elements[from]) || any_element_repeats(elements, from + 1)
    } else {
        false
    }
}

/// Somewhere in `value` an object holds a key twice.
pub open spec fn repeats_a_key(value: SyntaxModel) -> bool
    decreases value, 0int,
{
    match value {
        SyntaxModel::Object(_, properties) => has_twins(properties) || any_member_repeats(
            properties,
            0,
        ),
        SyntaxModel::Array(_, elements) => any_element_repeats(elements, 0),
        _ => false,
    }
}

impl SyntaxModel {
    /// The object holds the key `name` twice, or somewhere in the value of
    /// its first member of that name an object holds a key twice.
    pub open spec fn repeats_at(self, name: Seq<char>) -> bool {
        match self {
            SyntaxModel::Object(_, properties) => {
                ||| named_twice(properties, name)
                ||| (first_named(properties, name, 0) is Some && repeats_a_key(
                    first_named(properties, name, 0)->Some_0.value,
                ))
            },
            _ => false,
        }
    }

    /// The range that the value takes in the text.
    pub open spec fn range(self) -> ByteRange {
        match self {
            SyntaxModel::StringLit(range) => range,
            SyntaxModel::NumberLit(range) => range,
            SyntaxModel::BooleanLit(range) => range,
            SyntaxModel::NullKeyword(range) => range,
            SyntaxModel::Array(range, _) => range,
            SyntaxModel::Object(range, _) => range,
        }
    }

    /// The first member named `name`, where the value is an object that
    /// has one.
    pub open spec fn member(self, name: Seq<char>) -> Option<PropModel> {
        match self {
            SyntaxModel::Object(_, properties) => first_named(properties, name, 0),
            _ => None,
        }
    }

    /// The element at `index`, where the value is an array that has one.
    pub open spec fn element(self, index: int) -> Option<SyntaxModel> {
        match self {
            SyntaxModel::Array(_, elements) => if 0 <= index < elements.len() {
                Some(elements[index])
            } else {
                None
            },
            _ => None,
        }
    }

    /// The value's range, where it is a string literal.
    pub open spec fn string_range(self) -> Option<ByteRange> {
        match self {
            SyntaxModel::StringLit(range) => Some(range),
            _ => None,
        }
    }

    /// The value's range, where it is `true` or `false`.
    pub open spec fn boolean_range(self) -> Option<ByteRange> {
        match self {
            SyntaxModel::BooleanLit(range) => Some(range),
            _ => None,
        }
    }
}

/// Whether two of `properties` have the name `name`.
fn is_named_twice(properties: &Vec<ObjectProp>, name: &str) -> (yes: bool)
    ensures
        yes == named_twice(props_model(properties@), name@),
{
    let ghost models = props_model(properties@);
    let mut seen: bool = false;
    let ghost mut first: int = 0;
    let mut at: usize = 0;
    while at < properties.len()
        invariant
            at <= properties.len(),
            models == props_model(properties@),
            !seen ==> forall|k: int| 0 <= k < at ==> (#[trigger] models[k]).name != name@,
            seen ==> 0 <= first < at && models[first].name == name@ && forall|k: int|
                0 <= k < at && k != first ==> (#[trigger] models[k]).name != name@,
        decreases properties.len() - at,
    {
        if str_eq(properties[at].name.as_str(), name) {
            if seen {
                assert(models[first].name == name@ && models[at as int].name == name@);
                return true;
            }
            seen = true;
            proof {
                first = at as int;
            }
        }
        at += 1;
    }
    false
}

/// Whether two of `properties` have the same name.
fn find_twins(properties: &Vec<ObjectProp>) -> (yes: bool)
    ensures
        yes == has_twins(props_model(properties@)),
{
    let ghost models = props_model(properties@);
    let mut j: usize = 0;
    while j < properties.len()
        invariant
            j <= properties.len(),
            models == props_model(properties@),
            forall|a: int, b: int| 0 <= a < b < j ==> models[a].name != models[b].name,
        decreases properties.len() - j,
    {
        let mut i: usize = 0;
        while i < j
            invariant
                i <= j < properties.len(),
                models == props_model(properties@),
                forall|a: int| 0 <= a < i ==> models[a].name != models[j as int].name,
            decreases j - i,
        {
            if str_eq(properties[i].name.as_str(), properties[j].name.as_str()) {
                assert(models[i as int].name == models[j as int].name);
                return true;
            }
            i += 1;
        }
        j += 1;
    }
    false
}

impl SyntaxValue {
    /// Whether somewhere in the value an object holds a key twice.
    pub fn has_repeated_key(&self) -> (yes: bool)
        ensures
            yes == repeats_a_key(self@),
        decreases self,
    {
        match self {
            SyntaxValue::Object(range, properties) => {
                proof {
                    lemma_syntax_object_view(*range, *properties);
                }
                if find_twins(properties) {
                    return true;
                }
                let ghost models = props_model(properties@);
                let mut at: usize = 0;
                while at < properties.len()
                    invariant
                        at <= properties.len(),
                        models == props_model(properties@),
                        *self == SyntaxValue::Object(*range, *properties),
                        self@ == SyntaxModel::Object(*range, models),
                        !has_twins(models),
                        any_member_repeats(models, 0) == any_member_repeats(models, at as int),
                    decreases properties.len() - at,
                {
                    proof {
                        assert(decreases_to!(*self => self->Object_1));
                        assert(decreases_to!(*properties => properties[at as int]));
                        assert(decreases_to!(properties[at as int] => properties[at as int].value));
                    }
                    if properties[at].value.has_repeated_key() {
                        return true;
                    }
                    at += 1;
                }
                false
            },
            SyntaxValue::Array(range, elements) => {
                proof {
                    lemma_syntax_array_view(*range, *elements);
                }
                let ghost models = elements_model(elements@);
                let mut at: usize = 0;
                while at < elements.len()
                    invariant
                        at <= elements.len(),
                        models == elements_model(elements@),
                        *self == SyntaxValue::Array(*range, *elements),
                        self@ == SyntaxModel::Array(*range, models),
                        any_element_repeats(models, 0) == any_element_repeats(models, at as int),
                    decreases elements.len() - at,
                {
                    proof {
                        assert(decreases_to!(*self => self->Array_1));
                        assert(decreases_to!(*elements => elements[at as int]));
                    }
                    if elements[at].has_repeated_key() {
                        return true;
                    }
                    at += 1;
                }
                false
            },
            _ => false,
        }
    }

    /// Whether the object holds the key `name` twice, or somewhere in the
    /// value of its first member of that name an object holds a key twice.
    pub fn has_repeated_at(&self, name: &str) -> (yes: bool)
        ensures
            yes == self@.repeats_at(name@),
    {
        match self {
            SyntaxValue::Object(range, properties) => {
                proof {
                    lemma_syntax_object_view(*range, *properties);
                }
                if is_named_twice(properties, name) {
                    return true;
                }
                match self.get(name) {
                    Some(prop) => prop.value.has_repeated_key(),
                    None => false,
                }
            },
            _ => false,
        }
    }

    /// The range that the value takes in the text.
    pub fn range(&self) -> (range: ByteRange)
        ensures
            range == self@.range(),
    {
        match self {
            SyntaxValue::StringLit(range) => *range,
            SyntaxValue::NumberLit(range) => *range,
            SyntaxValue::BooleanLit(range) => *range,
            SyntaxValue::NullKeyword(range) => *range,
            SyntaxValue::Array(range, _) => *range,
            SyntaxValue::Object(range, _) => *range,
        }
    }

    /// The first member named `name`, where the value is an object that
    /// has one.
    pub fn get(&self, name: &str) -> (found: Option<&ObjectProp>)
        ensures
            self@.member(name@) == match found {
                Some(prop) => Some(prop@),
                None => None,
            },
    {
        match self {
            SyntaxValue::Object(range, properties) => {
                proof {
                    lemma_syntax_object_view(*range, *properties);
                }
                let mut at: usize = 0;
                while at < properties.len()
                    invariant
                        at <= properties.len(),
                        self@ == SyntaxModel::Object(*range, props_model(properties@)),
                        first_named(props_model(properties@), name@, 0) == first_named(
                            props_model(properties@),
                            name@,
                            at as int,
                        ),
                    decreases properties.len() - at,
                {
                    if str_eq(properties[at].name.as_str(), name) {
                        return Some(&properties[at]);
                    }
                    at += 1;
                }
                None
            },
            _ => None,
        }
    }

    /// The element at `index`, where the value is an array that has one.
    pub fn element(&self, index: usize) -> (found: Option<&SyntaxValue>)
        ensures
            self@.element(index as int) == match found {
                Some(value) => Some(value@),
                None => None,
            },
    {
        match self {
            SyntaxValue::Array(range, elements) => {
                proof {
                    lemma_syntax_array_view(*range, *elements);
                }
                if index < elements.len() {
                    Some(&elements[index])
                } else {
                    None
                }
            },
            _ => None,
        }
    }

    /// The value's range, where it is a string literal.
    pub fn as_string_lit(&self) -> (range: Option<ByteRange>)
        ensures
            range == self@.string_range(),
    {
        match self {
            SyntaxValue::StringLit(range) => Some(*range),
            _ => None,
        }
    }

    /// The value's range, where it is `true` or `false`.
    pub fn as_boolean_lit(&self) -> (range: Option<ByteRange>)
        ensures
            range == self@.boolean_range(),
    {
        match self {
            SyntaxValue::BooleanLit(range) => Some(*range),
            _ => None,
        }
    }
}

/// A value of the syntax tree of `jsonc_parser`, which is carried and
/// never looked into.
#[verifier::external_type_specification]
#[verifier::external_body]
pub struct ExAstValue<'a>(jsonc_parser::ast::Value<'a>);

/// A range of `jsonc_parser`, which is carried and never looked into.
#[verifier::external_type_specification]
#[verifier::external_body]
pub struct ExAstRange(jsonc_parser::common::Range);

/// What `jsonc_parser` reads `text` as: the tree of the one value it
/// holds, or nothing where the text holds no value or does not parse.
pub uninterp spec fn syntax_document(text: Seq<char>) -> Option<SyntaxModel>;

/// Copies a `jsonc_parser` range, field by field.
#[verifier::external_body]
fn range_from(range: jsonc_parser::common::Range) -> ByteRange {
    ByteRange { start: range.start, end: range.end }
}

/// Copies a member of a `jsonc_parser` object from its parts: its range,
/// its name and its value.
#[verifier::external_body]
fn prop_from(range: jsonc_parser::common::Range, name: &str, value: &Value) -> ObjectProp {
    ObjectProp { range: range_from(range), name: name.to_string(), value: syntax_from(value) }
}

/// Copies a `jsonc_parser` value into a `SyntaxValue`, variant by variant:
/// of a literal its range, of an array its range and elements, of an
/// object its range and members, each member's name as `as_str` gives it.
#[verifier::external_body]
fn syntax_from(value: &Value) -> SyntaxValue {
    match value {
        Value::StringLit(n) => SyntaxValue::StringLit(range_from(n.range)),
        Value::NumberLit(n) => SyntaxValue::NumberLit(range_from(n.range)),
        Value::BooleanLit(n) => SyntaxValue::BooleanLit(range_from(n.range)),
        Value::NullKeyword(n) => SyntaxValue::NullKeyword(range_from(n.range)),
        Value::Array(n) => {
            SyntaxValue::Array(range_from(n.range), n.elements.iter().map(syntax_from).collect())
        },
        Value::Object(n) => SyntaxValue::Object(
            range_from(n.range),
            n.properties.iter().map(|p| prop_from(p.range, p.name.as_str(), &p.value)).collect(),
        ),
    }
}

/// Calls `jsonc_parser::parse_to_ast` with its default options. The
/// contract claims only that the outcome is the one that `syntax_document`
/// names for this text. It is asked for texts that are strict JSON, which
/// bounds how deep the parser descends.
#[verifier::external_body]
fn read_syntax(text: &str) -> (tree: Option<SyntaxValue>)
    requires
        json_document(text@) is Ok,
    ensures
        syntax_document(text@) == match tree {
            Some(value) => Some(value@),
            None => None,
        },
{
    match jsonc_parser::parse_to_ast(text, &Default::default(), &Default::default()) {
        Ok(parsed) => parsed.value.as_ref().map(syntax_from),
        Err(_) => None,
    }
}

/// Parses `text` into its syntax tree. A text that is no strict JSON has
/// none.
pub fn parse_syntax(text: &str) -> (tree: Option<SyntaxValue>)
    ensures
        (if json_document(text@) is Ok {
            syntax_document(text@)
        } else {
            None
        }) == match tree {
            Some(value) => Some(value@),
            None => None,
        },
{
    match parse_value(text) {
        Ok(_) => read_syntax(text),
        Err(_) => None,
    }
}

} // verus!
