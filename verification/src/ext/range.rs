//! Range lookup: from a member of the syntax tree to the bytes of a value.

use crate::syntax::{ByteRange, ObjectProp, PropModel, SyntaxModel, SyntaxValue};
use vstd::prelude::*;

verus! {

/// The range of `value` itself for the empty path; else the range found
/// by following `path` from member to member. There is none where a key
/// is missing or a value on the way is no object.
pub open spec fn range_at(value: SyntaxModel, path: Seq<Seq<char>>) -> Option<ByteRange>
    decreases path.len(),
{
    if path.len() == 0 {
        Some(value.range())
    } else {
        match value.member(path[0]) {
            Some(prop) => range_at(prop.value, path.drop_first()),
            None => None,
        }
    }
}

/// The keys of a path.
pub open spec fn path_model(path: Seq<&str>) -> Seq<Seq<char>> {
    Seq::new(path.len(), |i: int| path[i]@)
}

/// What a member that may be missing stands for.
pub open spec fn prop_model(prop: Option<&ObjectProp>) -> Option<PropModel> {
    match prop {
        Some(prop) => Some(prop@),
        None => None,
    }
}

/// What a value that may be missing stands for.
pub open spec fn node_model(node: Option<&SyntaxValue>) -> Option<SyntaxModel> {
    match node {
        Some(node) => Some(node@),
        None => None,
    }
}

/// The range that `value_range` gives.
pub open spec fn value_range_of(prop: Option<PropModel>, path: Seq<Seq<char>>) -> Option<
    ByteRange,
> {
    match prop {
        Some(prop) => range_at(prop.value, path),
        None => None,
    }
}

/// The range of the value that `path` leads to from `prop`: with an empty
/// path that of the member's own value.
pub fn value_range(prop: Option<&ObjectProp>, path: &[&str]) -> (range: Option<ByteRange>)
    ensures
        range == value_range_of(prop_model(prop), path_model(path@)),
{
    let member = match prop {
        Some(member) => member,
        None => {
            return None;
        },
    };
    let ghost keys = path_model(path@);
    let mut current: &SyntaxValue = &member.value;
    let mut i: usize = 0;
    assert(keys.skip(0) =~= keys);
    while i < path.len()
        invariant
            i <= path.len(),
            keys == path_model(path@),
            prop == Some(member),
            range_at(member.value@, keys) == range_at(current@, keys.skip(i as int)),
        decreases path.len() - i,
    {
        assert(keys.skip(i as int).drop_first() =~= keys.skip(i + 1));
        assert(keys.skip(i as int)[0] == path[i as int]@);
        match current.get(path[i]) {
            Some(inner) => {
                current = &inner.value;
            },
            None => {
                return None;
            },
        }
        i += 1;
    }
    Some(current.range())
}

/// The value of a member.
pub open spec fn value_of(prop: Option<PropModel>) -> Option<SyntaxModel> {
    match prop {
        Some(prop) => Some(prop.value),
        None => None,
    }
}

/// The range of a value that is a string literal.
pub open spec fn string_range_of(node: Option<SyntaxModel>) -> Option<ByteRange> {
    match node {
        Some(value) => value.string_range(),
        None => None,
    }
}

/// The range of the member `key` of an object, where that member is a
/// string literal.
pub open spec fn member_string_range_of(node: Option<SyntaxModel>, key: Seq<char>) -> Option<
    ByteRange,
> {
    match node {
        Some(value) => match value.member(key) {
            Some(prop) => prop.value.string_range(),
            None => None,
        },
        None => None,
    }
}

/// The range of the member `key` of an object, where that member is
/// `true` or `false`.
pub open spec fn member_boolean_range_of(node: Option<SyntaxModel>, key: Seq<char>) -> Option<
    ByteRange,
> {
    match node {
        Some(value) => match value.member(key) {
            Some(prop) => prop.value.boolean_range(),
            None => None,
        },
        None => None,
    }
}

/// The element at `index` of an array.
pub open spec fn element_of(node: Option<SyntaxModel>, index: int) -> Option<SyntaxModel> {
    match node {
        Some(value) => value.element(index),
        None => None,
    }
}

/// The first member of the object `root` that is named `key`.
pub open spec fn member_of(root: Option<SyntaxModel>, key: Seq<char>) -> Option<PropModel> {
    match root {
        Some(value) => value.member(key),
        None => None,
    }
}

/// The first member of the object `root` that is named `key`.
pub fn member_named<'a>(root: Option<&'a SyntaxValue>, key: &str) -> (prop: Option<&'a ObjectProp>)
    ensures
        prop_model(prop) == member_of(node_model(root), key@),
{
    match root {
        Some(value) => value.get(key),
        None => None,
    }
}

/// The value of a member that may be missing.
pub fn node_of(prop: Option<&ObjectProp>) -> (node: Option<&SyntaxValue>)
    ensures
        node_model(node) == value_of(prop_model(prop)),
{
    match prop {
        Some(prop) => Some(&prop.value),
        None => None,
    }
}

/// The range of `node`, where it is a string literal.
pub fn string_range(node: Option<&SyntaxValue>) -> (range: Option<ByteRange>)
    ensures
        range == string_range_of(node_model(node)),
{
    match node {
        Some(value) => value.as_string_lit(),
        None => None,
    }
}

/// The range of the member `key` of `node`, where that member is a string
/// literal.
pub fn member_string_range(node: Option<&SyntaxValue>, key: &str) -> (range: Option<ByteRange>)
    ensures
        range == member_string_range_of(node_model(node), key@),
{
    match node {
        Some(value) => match value.get(key) {
            Some(prop) => prop.value.as_string_lit(),
            None => None,
        },
        None => None,
    }
}

/// The range of the member `key` of `node`, where that member is `true`
/// or `false`.
pub fn member_boolean_range(node: Option<&SyntaxValue>, key: &str) -> (range: Option<ByteRange>)
    ensures
        range == member_boolean_range_of(node_model(node), key@),
{
    match node {
        Some(value) => match value.get(key) {
            Some(prop) => prop.value.as_boolean_lit(),
            None => None,
        },
        None => None,
    }
}

/// The element at `index` of `node`, where it is an array that has one.
pub fn element_at(node: Option<&SyntaxValue>, index: usize) -> (element: Option<&SyntaxValue>)
    ensures
        node_model(element) == element_of(node_model(node), index as int),
{
    match node {
        Some(value) => value.element(index),
        None => None,
    }
}

} // verus!
