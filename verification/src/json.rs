//! The JSON documents that frames are made of.
//!
//! Documents are parsed, held and printed by `serde_json`. Verified code sees
//! a document only through [`json_tree`], the mathematical tree that a
//! `serde_json::Value` stands for, and through the small operations below,
//! each of which is one function of `serde_json` with what it does to that
//! tree. Their contracts are believed, not proved.

use vstd::prelude::*;

verus! {

#[verifier::external_type_specification]
#[verifier::external_body]
pub struct ExValue(serde_json::Value);

/// A JSON document as a tree.
///
/// A number is kept as the text that `serde_json` prints for it; an object is
/// the sequence of its members, each a name and a value, in their order.
pub enum JsonTree {
    Null,
    Bool(bool),
    Number(Seq<char>),
    Text(Seq<char>),
    Array(Seq<JsonTree>),
    Object(Seq<(Seq<char>, JsonTree)>),
}

/// The first member called `key`, if there is one.
pub open spec fn lookup(members: Seq<(Seq<char>, JsonTree)>, key: Seq<char>) -> Option<JsonTree>
    decreases members.len(),
{
    if members.len() == 0 {
        None
    } else if members[0].0 == key {
        Some(members[0].1)
    } else {
        lookup(members.drop_first(), key)
    }
}

/// The members with `key` set to `member`: the first member of that name is
/// replaced where it stands, and where there is none the member is added
/// last.
pub open spec fn put(
    members: Seq<(Seq<char>, JsonTree)>,
    key: Seq<char>,
    member: JsonTree,
) -> Seq<(Seq<char>, JsonTree)>
    decreases members.len(),
{
    if members.len() == 0 {
        seq![(key, member)]
    } else if members[0].0 == key {
        seq![(key, member)] + members.drop_first()
    } else {
        seq![members[0]] + put(members.drop_first(), key, member)
    }
}

impl JsonTree {
    /// The member called `key` of an object; `None` for a missing member and
    /// for a tree that is no object.
    pub open spec fn member(self, key: Seq<char>) -> Option<JsonTree> {
        match self {
            JsonTree::Object(members) => lookup(members, key),
            _ => None,
        }
    }

    /// The object without members.
    pub open spec fn empty_object() -> JsonTree {
        JsonTree::Object(Seq::empty())
    }

    /// The object `self` with the member `key` set to `member`.
    pub open spec fn with(self, key: Seq<char>, member: JsonTree) -> JsonTree {
        JsonTree::Object(put(self->Object_0, key, member))
    }
}

/// After a member is set, it is found under its name, and every other name
/// finds what it found before.
pub proof fn lemma_lookup_put(
    members: Seq<(Seq<char>, JsonTree)>,
    key: Seq<char>,
    member: JsonTree,
    other: Seq<char>,
)
    ensures
        lookup(put(members, key, member), other) == if other == key {
            Some(member)
        } else {
            lookup(members, other)
        },
    decreases members.len(),
{
    let after = put(members, key, member);
    if members.len() == 0 {
        assert(after[0] == (key, member));
        assert(after.drop_first() =~= members);
    } else if members[0].0 == key {
        assert(after[0] == (key, member));
        assert(after.drop_first() =~= members.drop_first());
    } else {
        lemma_lookup_put(members.drop_first(), key, member, other);
        assert(after[0] == members[0]);
        assert(after.drop_first() =~= put(members.drop_first(), key, member));
    }
}

/// The members of an object that a member was set in: the one set, and the
/// others as they were.
pub proof fn lemma_members_with(tree: JsonTree, key: Seq<char>, member: JsonTree)
    requires
        tree is Object,
    ensures
        forall|other: Seq<char>|
            #[trigger] tree.with(key, member).member(other) == if other == key {
                Some(member)
            } else {
                tree.member(other)
            },
{
    assert forall|other: Seq<char>|
        #[trigger] tree.with(key, member).member(other) == if other == key {
            Some(member)
        } else {
            tree.member(other)
        } by {
        lemma_lookup_put(tree->Object_0, key, member, other);
    }
}

/// The tree that a `serde_json::Value` stands for.
pub uninterp spec fn json_tree(value: serde_json::Value) -> JsonTree;

/// The tree that `serde_json::from_str` reads from a text, `None` where it
/// reports an error.
pub uninterp spec fn json_parse(text: Seq<char>) -> Option<JsonTree>;

/// The compact text that `serde_json` prints for a tree, with the members of
/// each object in their order.
pub uninterp spec fn json_text(tree: JsonTree) -> Seq<char>;

/// `serde_json::from_str::<Value>`, with the error dropped.
///
/// Trusted: the value stands for the named tree of the text.
#[verifier::external_body]
pub(crate) fn parse_document(text: &str) -> (document: Option<serde_json::Value>)
    ensures
        match document {
            Some(value) => json_parse(text@) == Some(json_tree(value)),
            None => json_parse(text@) is None,
        },
{
    serde_json::from_str::<serde_json::Value>(text).ok()
}

/// `Value`'s `Display`: the compact text of a document.
///
/// Trusted: the text is the named text of the value's tree.
#[verifier::external_body]
pub(crate) fn print_document(document: &serde_json::Value) -> (text: String)
    ensures
        text@ == json_text(json_tree(*document)),
{
    document.to_string()
}

/// `Value::get` with a member name.
///
/// Trusted: it finds the member of that name in an object, of which there is
/// at most one, and nothing in any other value.
#[verifier::external_body]
pub(crate) fn member<'a>(
    document: &'a serde_json::Value,
    key: &str,
) -> (found: Option<&'a serde_json::Value>)
    ensures
        match found {
            Some(value) => json_tree(*document).member(key@) == Some(json_tree(*value)),
            None => json_tree(*document).member(key@) is None,
        },
{
    document.get(key)
}

/// `Value::as_str`.
///
/// Trusted: it hands out the text of a string value and nothing for any other.
#[verifier::external_body]
pub(crate) fn text_of<'a>(value: &'a serde_json::Value) -> (text: Option<&'a str>)
    ensures
        match text {
            Some(t) => json_tree(*value) == JsonTree::Text(t@),
            None => !(json_tree(*value) is Text),
        },
{
    value.as_str()
}

/// `Value::as_bool`.
///
/// Trusted: it hands out the truth value of a boolean and nothing for any
/// other value.
#[verifier::external_body]
pub(crate) fn flag_of(value: &serde_json::Value) -> (flag: Option<bool>)
    ensures
        match flag {
            Some(b) => json_tree(*value) == JsonTree::Bool(b),
            None => !(json_tree(*value) is Bool),
        },
{
    value.as_bool()
}

/// `Value::is_null`.
///
/// Trusted: it tells `null` from every other value.
#[verifier::external_body]
pub(crate) fn is_null(value: &serde_json::Value) -> (null: bool)
    ensures
        null == (json_tree(*value) is Null),
{
    value.is_null()
}

/// `Value::Null`.
#[verifier::external_body]
pub(crate) fn null_value() -> (value: serde_json::Value)
    ensures
        json_tree(value) == JsonTree::Null,
{
    serde_json::Value::Null
}

/// `Value::Bool`.
#[verifier::external_body]
pub(crate) fn flag_value(flag: bool) -> (value: serde_json::Value)
    ensures
        json_tree(value) == JsonTree::Bool(flag),
{
    serde_json::Value::Bool(flag)
}

/// `Value::String`.
#[verifier::external_body]
pub(crate) fn text_value(text: String) -> (value: serde_json::Value)
    ensures
        json_tree(value) == JsonTree::Text(text@),
{
    serde_json::Value::String(text)
}

/// `Value::Object` of `Map::new()`: the object without members.
#[verifier::external_body]
pub(crate) fn empty_object() -> (value: serde_json::Value)
    ensures
        json_tree(value) == JsonTree::empty_object(),
{
    serde_json::Value::Object(serde_json::Map::new())
}

/// `serde_json::Map::insert` on the members of an object. With the feature
/// `preserve_order`, which this crate asks for, the map is an
/// `indexmap::IndexMap` and the call is its `insert`.
///
/// Trusted: a member of that name is replaced where it stands, a new name is
/// added last, and the other members stay as they are.
#[verifier::external_body]
pub(crate) fn with_member(
    object: serde_json::Value,
    key: &str,
    member: serde_json::Value,
) -> (value: serde_json::Value)
    requires
        json_tree(object) is Object,
    ensures
        json_tree(value) == json_tree(object).with(key@, json_tree(member)),
{
    let mut object = object;
    if let serde_json::Value::Object(members) = &mut object {
        members.insert(key.to_string(), member);
    }
    object
}

} // verus!
