//! Reading and writing YAML documents through `serde_yaml`.

use serde_yaml::value::{Tag, TaggedValue};
use serde_yaml::Value;
use vstd::prelude::*;

use super::diagnostics::YamlFault;
use crate::yaml::Yaml;

#[allow(unused_imports)]
use super::diagnostics::FaultView;
#[allow(unused_imports)]
use crate::yaml::{writable, Tree};

verus! {

/// A YAML value of `serde_yaml`.
#[verifier::external_type_specification]
#[verifier::external_body]
pub struct ExValue(serde_yaml::Value);

/// The tree that a value of `serde_yaml` holds.
pub uninterp spec fn value_tree(value: serde_yaml::Value) -> Tree;

/// The value of `serde_yaml` that holds a tree.
pub uninterp spec fn tree_value(tree: Tree) -> serde_yaml::Value;

/// What `serde_yaml::from_str` makes of a text: the tree of the document, or
/// what it says of a text that is no YAML document.
pub uninterp spec fn parsed_yaml(text: Seq<char>) -> Result<Tree, FaultView>;

/// The text that `serde_yaml::to_string` writes for a value, or its complaint.
pub uninterp spec fn value_text(value: serde_yaml::Value) -> Result<Seq<char>, Seq<char>>;

/// The number that `serde_yaml::from_value` reads as a `u64` from a value, or
/// its complaint.
pub uninterp spec fn value_unsigned(value: serde_yaml::Value) -> Result<u64, Seq<char>>;

/// The text that is written for a tree, or the complaint of the writer.
pub open spec fn written_yaml(tree: Tree) -> Result<Seq<char>, Seq<char>> {
    value_text(tree_value(tree))
}

/// The unsigned number that is read from a tree, or the complaint of the
/// reader.
pub open spec fn unsigned_reading(tree: Tree) -> Result<u64, Seq<char>> {
    value_unsigned(tree_value(tree))
}

/// The tree of a value of `serde_yaml`, variant for variant. A number becomes
/// `Unsigned` where it is one, `Negative` where it is another integer, and the
/// text that `serde_yaml` shows for it otherwise. A tag is kept without the
/// `!` that `serde_yaml` shows in front of it.
#[verifier::external_body]
fn tree_of(value: serde_yaml::Value) -> (r: Yaml)
    ensures
        r@ == value_tree(value),
{
    match value {
        Value::Null => Yaml::Null,
        Value::Bool(value) => Yaml::Bool(value),
        Value::Number(number) => number.as_u64().map(Yaml::Unsigned).or(
            number.as_i64().map(Yaml::Negative)).unwrap_or(Yaml::Float(number.to_string())),
        Value::String(text) => Yaml::Text(text),
        Value::Sequence(items) => Yaml::Sequence(items.into_iter().map(tree_of).collect()),
        Value::Mapping(entries) => Yaml::Mapping(entries.into_iter().map(entry_trees).collect()),
        Value::Tagged(tagged) => Yaml::Tagged(
            tagged.tag.to_string().split_off(1), Box::new(tree_of(tagged.value))),
    }
}

/// The trees of one entry of a mapping.
fn entry_trees(entry: (serde_yaml::Value, serde_yaml::Value)) -> (r: (Yaml, Yaml))
    ensures
        r.0@ == value_tree(entry.0),
        r.1@ == value_tree(entry.1),
{
    (tree_of(entry.0), tree_of(entry.1))
}

/// `serde_yaml::from_str` on a text. The contract names what the value holds,
/// and what is said of a text that is refused.
#[verifier::external_body]
fn parse_value(text: &str) -> (r: Result<serde_yaml::Value, YamlFault>)
    ensures
        (match r {
            Ok(value) => Ok(value_tree(value)),
            Err(fault) => Err(fault@),
        }) == parsed_yaml(text@),
{
    serde_yaml::from_str(text).map_err(|error| YamlFault {
        message: error.to_string(),
        location: error.location().map(|place| (place.line(), place.column())),
    })
}

/// The value of `serde_yaml` for a tree, variant for variant, as `tree_of`
/// reads it. A `Float` that is no number becomes null. From the value of an
/// unsigned number `serde_yaml::from_value` reads that number.
#[verifier::external_body]
fn value_of(tree: &Yaml) -> (r: serde_yaml::Value)
    ensures
        r == tree_value(tree@),
        tree@ matches Tree::Unsigned(number) ==> value_unsigned(r) is Ok && value_unsigned(r)->Ok_0
            == number,
{
    match tree {
        Yaml::Null => Value::Null,
        Yaml::Bool(value) => Value::Bool(*value),
        Yaml::Unsigned(number) => (*number).into(),
        Yaml::Negative(number) => (*number).into(),
        Yaml::Float(text) => text.parse().map(Value::Number).unwrap_or_default(),
        Yaml::Text(text) => Value::String(text.clone()),
        Yaml::Sequence(items) => Value::Sequence(items.iter().map(value_of).collect()),
        Yaml::Mapping(entries) => Value::Mapping(entries.iter().map(entry_values).collect()),
        Yaml::Tagged(tag, value) => Value::Tagged(Box::new(
            TaggedValue { tag: Tag::new(format!("!{tag}")), value: value_of(value) })),
    }
}

/// The values of one entry of a mapping.
fn entry_values(entry: &(Yaml, Yaml)) -> (r: (serde_yaml::Value, serde_yaml::Value))
    ensures
        r.0 == tree_value(entry.0@),
        r.1 == tree_value(entry.1@),
{
    (value_of(&entry.0), value_of(&entry.1))
}

/// `serde_yaml::to_string` on a value. The contract names the text. A value
/// without tags whose keys are texts is written without a complaint, as long
/// as its texts fit the integers in which the writer counts: of such a value
/// the serializer emits balanced events, and the sink is memory.
#[verifier::external_body]
fn write_value(value: &serde_yaml::Value) -> (r: Result<String, String>)
    ensures
        (match r {
            Ok(text) => Ok(text@),
            Err(detail) => Err(detail@),
        }) == value_text(*value),
        forall|tree: Tree| writable(tree) && *value == #[trigger] tree_value(tree) ==> r is Ok,
{
    serde_yaml::to_string(value).map_err(|error| error.to_string())
}

/// `serde_yaml::from_value` into a `u64`. The contract names the number.
#[verifier::external_body]
fn read_value(value: serde_yaml::Value) -> (r: Result<u64, String>)
    ensures
        (match r {
            Ok(number) => Ok(number),
            Err(detail) => Err(detail@),
        }) == value_unsigned(value),
{
    serde_yaml::from_value(value).map_err(|error| error.to_string())
}

/// The tree of a value of `serde_yaml`.
pub fn tree_from_value(value: serde_yaml::Value) -> (r: Yaml)
    ensures
        r@ == value_tree(value),
{
    tree_of(value)
}

/// The value of `serde_yaml` that holds a tree.
pub fn value_from_tree(tree: &Yaml) -> (r: serde_yaml::Value)
    ensures
        r == tree_value(tree@),
{
    value_of(tree)
}

/// The tree of a YAML document.
pub fn parse_yaml(text: &str) -> (r: Result<Yaml, YamlFault>)
    ensures
        (match r {
            Ok(tree) => Ok(tree@),
            Err(fault) => Err(fault@),
        }) == parsed_yaml(text@),
{
    match parse_value(text) {
        Ok(value) => Ok(tree_of(value)),
        Err(fault) => Err(fault),
    }
}

/// The YAML text of a tree.
pub fn write_yaml(tree: &Yaml) -> (r: Result<String, String>)
    ensures
        (match r {
            Ok(text) => Ok(text@),
            Err(detail) => Err(detail@),
        }) == written_yaml(tree@),
        writable(tree@) ==> r is Ok,
{
    let value = value_of(tree);
    write_value(&value)
}

/// The unsigned number that a tree stands for.
pub fn read_unsigned(tree: &Yaml) -> (r: Result<u64, String>)
    ensures
        (match r {
            Ok(number) => Ok(number),
            Err(detail) => Err(detail@),
        }) == unsigned_reading(tree@),
{
    read_value(value_of(tree))
}

} // verus!
