//! YAML documents as plain trees.

use vstd::prelude::*;

use crate::text::same_text;

verus! {

/// One YAML value. A mapping keeps its entries in order.
#[derive(Debug, PartialEq, Eq)]
pub enum Yaml {
    Null,
    Bool(bool),
    Unsigned(u64),
    Negative(i64),
    /// A floating-point number as it is written.
    Float(String),
    Text(String),
    Sequence(Vec<Yaml>),
    Mapping(Vec<(Yaml, Yaml)>),
    Tagged(String, Box<Yaml>),
}

/// One YAML value as mathematical values.
pub enum Tree {
    Null,
    Bool(bool),
    Unsigned(u64),
    Negative(i64),
    Float(Seq<char>),
    Text(Seq<char>),
    Sequence(Seq<Tree>),
    Mapping(Seq<(Tree, Tree)>),
    Tagged(Seq<char>, Box<Tree>),
}

impl Yaml {
    /// The value as mathematical values.
    pub open spec fn view(&self) -> Tree
        decreases self,
    {
        match *self {
            Yaml::Null => Tree::Null,
            Yaml::Bool(value) => Tree::Bool(value),
            Yaml::Unsigned(value) => Tree::Unsigned(value),
            Yaml::Negative(value) => Tree::Negative(value),
            Yaml::Float(text) => Tree::Float(text@),
            Yaml::Text(text) => Tree::Text(text@),
            Yaml::Sequence(items) => Tree::Sequence(
                Seq::new(
                    items@.len(),
                    |i: int|
                        if 0 <= i < items@.len() {
                            items@[i].view()
                        } else {
                            Tree::Null
                        },
                ),
            ),
            Yaml::Mapping(entries) => Tree::Mapping(
                Seq::new(
                    entries@.len(),
                    |i: int|
                        if 0 <= i < entries@.len() {
                            (entries@[i].0.view(), entries@[i].1.view())
                        } else {
                            (Tree::Null, Tree::Null)
                        },
                ),
            ),
            Yaml::Tagged(tag, value) => Tree::Tagged(tag@, Box::new(value.view())),
        }
    }
}

/// Items as mathematical values.
pub open spec fn tree_items(items: Seq<Yaml>) -> Seq<Tree> {
    items.map_values(|item: Yaml| item@)
}

/// Entries as mathematical values.
pub open spec fn tree_entries(entries: Seq<(Yaml, Yaml)>) -> Seq<(Tree, Tree)> {
    entries.map_values(|entry: (Yaml, Yaml)| (entry.0@, entry.1@))
}

/// A sequence is the sequence of its items.
pub proof fn sequence_tree(items: Vec<Yaml>)
    ensures
        Yaml::Sequence(items)@ == Tree::Sequence(tree_items(items@)),
{
    let tree = Yaml::Sequence(items)@;
    assert(tree->Sequence_0 =~= tree_items(items@));
}

/// A mapping is the sequence of its entries.
pub proof fn mapping_tree(entries: Vec<(Yaml, Yaml)>)
    ensures
        Yaml::Mapping(entries)@ == Tree::Mapping(tree_entries(entries@)),
{
    let tree = Yaml::Mapping(entries)@;
    assert(tree->Mapping_0 =~= tree_entries(entries@));
}

/// The most characters of a text that is surely written. The writer of YAML
/// counts the bytes of a text and the columns of a line in 32 bits, and writes
/// a character with up to four bytes and ten columns.
pub const WRITABLE_CHARACTERS: usize = 0xCC0_0000;

/// Whether a text is short enough to be written for sure.
pub open spec fn fits(text: Seq<char>) -> bool {
    text.len() <= WRITABLE_CHARACTERS
}

/// Whether a value is surely written: it has neither tags nor fractions, its
/// keys are texts, and its texts are short enough.
pub open spec fn writable(tree: Tree) -> bool
    decreases tree,
{
    match tree {
        Tree::Null | Tree::Bool(_) | Tree::Unsigned(_) | Tree::Negative(_) => true,
        Tree::Float(_) | Tree::Tagged(_, _) => false,
        Tree::Text(text) => fits(text),
        Tree::Sequence(items) => forall|i: int|
            0 <= i < items.len() ==> writable(#[trigger] items[i]),
        Tree::Mapping(entries) => forall|i: int|
            0 <= i < entries.len() ==> {
                &&& (#[trigger] entries[i]).0 is Text
                &&& fits(entries[i].0->Text_0)
                &&& writable(entries[i].1)
            },
    }
}

/// A value without its tags.
pub open spec fn untagged(tree: Tree) -> Tree
    decreases tree,
{
    match tree {
        Tree::Tagged(_, value) => untagged(*value),
        _ => tree,
    }
}

/// The position of a key, from `from` on.
pub open spec fn key_position(entries: Seq<(Tree, Tree)>, key: Tree, from: int) -> Option<int>
    decreases entries.len() - from,
{
    if from < 0 || from >= entries.len() {
        None
    } else if entries[from].0 == key {
        Some(from)
    } else {
        key_position(entries, key, from + 1)
    }
}

/// The value of a key.
pub open spec fn value_at(entries: Seq<(Tree, Tree)>, key: Tree) -> Option<Tree> {
    match key_position(entries, key, 0) {
        Some(index) => Some(entries[index].1),
        None => None,
    }
}

/// Entries with a key set to a value. A known key keeps its place.
pub open spec fn with_entry(entries: Seq<(Tree, Tree)>, key: Tree, value: Tree) -> Seq<
    (Tree, Tree),
> {
    match key_position(entries, key, 0) {
        Some(index) => entries.update(index, (entries[index].0, value)),
        None => entries.push((key, value)),
    }
}

/// Entries without a key. The last entry takes the place of the removed one.
pub open spec fn without_entry(entries: Seq<(Tree, Tree)>, key: Tree) -> Seq<(Tree, Tree)> {
    match key_position(entries, key, 0) {
        Some(index) => entries.update(index, entries.last()).drop_last(),
        None => entries,
    }
}

impl Tree {
    /// The entries of a mapping, tagged or not.
    pub open spec fn as_mapping(self) -> Option<Seq<(Tree, Tree)>> {
        match untagged(self) {
            Tree::Mapping(entries) => Some(entries),
            _ => None,
        }
    }

    /// The text of a string, tagged or not.
    pub open spec fn as_text(self) -> Option<Seq<char>> {
        match untagged(self) {
            Tree::Text(text) => Some(text),
            _ => None,
        }
    }

    /// Whether the value is null, tagged or not.
    pub open spec fn is_null(self) -> bool {
        untagged(self) is Null
    }

    /// The value under a name of a mapping.
    pub open spec fn field(self, name: Seq<char>) -> Option<Tree> {
        match self.as_mapping() {
            Some(entries) => value_at(entries, Tree::Text(name)),
            None => None,
        }
    }
}

/// A position that was found is the first one with the key.
pub proof fn found_position(entries: Seq<(Tree, Tree)>, key: Tree, from: int)
    requires
        0 <= from,
    ensures
        match key_position(entries, key, from) {
            Some(index) => from <= index < entries.len() && entries[index].0 == key && forall|i: int|
                from <= i < index ==> (#[trigger] entries[i]).0 != key,
            None => forall|i: int| from <= i < entries.len() ==> (#[trigger] entries[i]).0 != key,
        },
    decreases entries.len() - from,
{
    if from < entries.len() && entries[from].0 != key {
        found_position(entries, key, from + 1);
    }
}

impl Yaml {
    /// Whether two values are the same, piece by piece.
    pub fn same(&self, other: &Yaml) -> (r: bool)
        ensures
            r == (self@ == other@),
        decreases self,
    {
        match (self, other) {
            (Yaml::Null, Yaml::Null) => true,
            (Yaml::Bool(a), Yaml::Bool(b)) => *a == *b,
            (Yaml::Unsigned(a), Yaml::Unsigned(b)) => *a == *b,
            (Yaml::Negative(a), Yaml::Negative(b)) => *a == *b,
            (Yaml::Float(a), Yaml::Float(b)) => same_text(a.as_str(), b.as_str()),
            (Yaml::Text(a), Yaml::Text(b)) => same_text(a.as_str(), b.as_str()),
            (Yaml::Sequence(a), Yaml::Sequence(b)) => {
                proof {
                    sequence_tree(*a);
                    sequence_tree(*b);
                }
                same_items(a, b)
            },
            (Yaml::Mapping(a), Yaml::Mapping(b)) => {
                proof {
                    mapping_tree(*a);
                    mapping_tree(*b);
                }
                same_entries(a, b)
            },
            (Yaml::Tagged(tag, a), Yaml::Tagged(other_tag, b)) => same_text(
                tag.as_str(),
                other_tag.as_str(),
            ) && a.same(b),
            _ => false,
        }
    }

    /// A copy of the value.
    pub fn duplicate(&self) -> (r: Yaml)
        ensures
            r@ == self@,
        decreases self,
    {
        match self {
            Yaml::Null => Yaml::Null,
            Yaml::Bool(value) => Yaml::Bool(*value),
            Yaml::Unsigned(value) => Yaml::Unsigned(*value),
            Yaml::Negative(value) => Yaml::Negative(*value),
            Yaml::Float(text) => Yaml::Float(text.clone()),
            Yaml::Text(text) => Yaml::Text(text.clone()),
            Yaml::Sequence(items) => {
                let copy = duplicate_items(items);
                proof {
                    sequence_tree(*items);
                    sequence_tree(copy);
                }
                Yaml::Sequence(copy)
            },
            Yaml::Mapping(entries) => {
                let copy = duplicate_entries(entries);
                proof {
                    mapping_tree(*entries);
                    mapping_tree(copy);
                }
                Yaml::Mapping(copy)
            },
            Yaml::Tagged(tag, value) => Yaml::Tagged(tag.clone(), Box::new(value.duplicate())),
        }
    }

    /// The value without its tags.
    pub fn plain(&self) -> (r: &Yaml)
        ensures
            r@ == untagged(self@),
            !(r@ is Tagged),
        decreases self,
    {
        match self {
            Yaml::Tagged(_, value) => value.plain(),
            _ => self,
        }
    }

    /// The entries of a mapping, tagged or not.
    pub fn as_mapping(&self) -> (r: Option<&Vec<(Yaml, Yaml)>>)
        ensures
            (match r {
                Some(entries) => Some(tree_entries(entries@)),
                None => None,
            }) == self@.as_mapping(),
    {
        match self.plain() {
            Yaml::Mapping(entries) => {
                proof {
                    mapping_tree(*entries);
                }
                Some(entries)
            },
            _ => None,
        }
    }

    /// The text of a string, tagged or not.
    pub fn as_text(&self) -> (r: Option<&String>)
        ensures
            (match r {
                Some(text) => Some(text@),
                None => None,
            }) == self@.as_text(),
    {
        match self.plain() {
            Yaml::Text(text) => Some(text),
            _ => None,
        }
    }

    /// Whether the value is null, tagged or not.
    pub fn is_null(&self) -> (r: bool)
        ensures
            r == self@.is_null(),
    {
        match self.plain() {
            Yaml::Null => true,
            _ => false,
        }
    }

    /// The value under a name of a mapping.
    pub fn field(&self, name: &str) -> (r: Option<&Yaml>)
        ensures
            (match r {
                Some(value) => Some(value@),
                None => None,
            }) == self@.field(name@),
    {
        match self.as_mapping() {
            Some(entries) => entry_value(entries, name),
            None => None,
        }
    }
}

/// The value of a name among entries.
pub fn entry_value<'a>(entries: &'a Vec<(Yaml, Yaml)>, name: &str) -> (r: Option<&'a Yaml>)
    ensures
        (match r {
            Some(value) => Some(value@),
            None => None,
        }) == value_at(tree_entries(entries@), Tree::Text(name@)),
{
    let ghost trees = tree_entries(entries@);
    let ghost key = Tree::Text(name@);
    let mut index: usize = 0;
    while index < entries.len()
        invariant
            index <= entries.len(),
            trees == tree_entries(entries@),
            key == Tree::Text(name@),
            key_position(trees, key, 0) == key_position(trees, key, index as int),
        decreases entries.len() - index,
    {
        proof {
            assert(trees[index as int] == (entries@[index as int].0@, entries@[index as int].1@));
        }
        if let Yaml::Text(text) = &entries[index].0 {
            if same_text(text.as_str(), name) {
                return Some(&entries[index].1);
            }
        }
        index = index + 1;
    }
    None
}

/// The position of a key among entries.
pub fn position_of_key(entries: &Vec<(Yaml, Yaml)>, key: &Yaml) -> (r: Option<usize>)
    ensures
        (match r {
            Some(index) => Some(index as int),
            None => None,
        }) == key_position(tree_entries(entries@), key@, 0),
        r matches Some(index) ==> index < entries@.len(),
{
    let ghost trees = tree_entries(entries@);
    let mut index: usize = 0;
    while index < entries.len()
        invariant
            index <= entries.len(),
            trees == tree_entries(entries@),
            key_position(trees, key@, 0) == key_position(trees, key@, index as int),
        decreases entries.len() - index,
    {
        proof {
            assert(trees[index as int] == (entries@[index as int].0@, entries@[index as int].1@));
        }
        if entries[index].0.same(key) {
            return Some(index);
        }
        index = index + 1;
    }
    None
}

/// Set a key to a value.
pub fn insert_entry(entries: &mut Vec<(Yaml, Yaml)>, key: Yaml, value: Yaml)
    ensures
        tree_entries(final(entries)@) == with_entry(tree_entries(old(entries)@), key@, value@),
{
    let ghost before = tree_entries(entries@);
    proof {
        found_position(before, key@, 0);
    }
    match position_of_key(entries, &key) {
        Some(index) => {
            let kept = entries[index].0.duplicate();
            entries.set(index, (kept, value));
            proof {
                assert(tree_entries(entries@) =~= before.update(
                    index as int,
                    (before[index as int].0, value@),
                ));
            }
        },
        None => {
            entries.push((key, value));
            proof {
                assert(tree_entries(entries@) =~= before.push((key@, value@)));
            }
        },
    }
}

/// Remove a key. The last entry takes its place.
pub fn remove_entry(entries: &mut Vec<(Yaml, Yaml)>, key: &Yaml)
    ensures
        tree_entries(final(entries)@) == without_entry(tree_entries(old(entries)@), key@),
{
    let ghost before = tree_entries(entries@);
    proof {
        found_position(before, key@, 0);
    }
    match position_of_key(entries, key) {
        Some(index) => {
            entries.swap_remove(index);
            proof {
                assert(tree_entries(entries@) =~= before.update(
                    index as int,
                    before.last(),
                ).drop_last());
            }
        },
        None => {},
    }
}

fn same_items(a: &Vec<Yaml>, b: &Vec<Yaml>) -> (r: bool)
    ensures
        r == (tree_items(a@) == tree_items(b@)),
    decreases a,
{
    if a.len() != b.len() {
        proof {
            assert(tree_items(a@).len() != tree_items(b@).len());
        }
        return false;
    }
    let mut index: usize = 0;
    while index < a.len()
        invariant
            index <= a.len(),
            a.len() == b.len(),
            forall|i: int| 0 <= i < index ==> (#[trigger] a@[i])@ == b@[i]@,
        decreases a.len() - index,
    {
        if !a[index].same(&b[index]) {
            proof {
                assert(tree_items(a@)[index as int] != tree_items(b@)[index as int]);
            }
            return false;
        }
        index = index + 1;
    }
    proof {
        assert(tree_items(a@) =~= tree_items(b@));
    }
    true
}

fn same_entries(a: &Vec<(Yaml, Yaml)>, b: &Vec<(Yaml, Yaml)>) -> (r: bool)
    ensures
        r == (tree_entries(a@) == tree_entries(b@)),
    decreases a,
{
    if a.len() != b.len() {
        proof {
            assert(tree_entries(a@).len() != tree_entries(b@).len());
        }
        return false;
    }
    let mut index: usize = 0;
    while index < a.len()
        invariant
            index <= a.len(),
            a.len() == b.len(),
            forall|i: int|
                0 <= i < index ==> (#[trigger] a@[i]).0@ == b@[i].0@ && a@[i].1@ == b@[i].1@,
        decreases a.len() - index,
    {
        if !a[index].0.same(&b[index].0) || !a[index].1.same(&b[index].1) {
            proof {
                assert(tree_entries(a@)[index as int] != tree_entries(b@)[index as int]);
            }
            return false;
        }
        index = index + 1;
    }
    proof {
        assert(tree_entries(a@) =~= tree_entries(b@));
    }
    true
}

/// A copy of items in the same order.
pub fn duplicate_items(items: &Vec<Yaml>) -> (r: Vec<Yaml>)
    ensures
        tree_items(r@) == tree_items(items@),
        r@.len() == items@.len(),
    decreases items,
{
    let mut copy: Vec<Yaml> = Vec::new();
    let mut index: usize = 0;
    while index < items.len()
        invariant
            index <= items.len(),
            copy.len() == index,
            forall|i: int| 0 <= i < index ==> (#[trigger] copy@[i])@ == items@[i]@,
        decreases items.len() - index,
    {
        copy.push(items[index].duplicate());
        index = index + 1;
    }
    proof {
        assert(tree_items(copy@) =~= tree_items(items@));
    }
    copy
}

/// A copy of entries in the same order.
pub fn duplicate_entries(entries: &Vec<(Yaml, Yaml)>) -> (r: Vec<(Yaml, Yaml)>)
    ensures
        tree_entries(r@) == tree_entries(entries@),
        r@.len() == entries@.len(),
    decreases entries,
{
    let mut copy: Vec<(Yaml, Yaml)> = Vec::new();
    let mut index: usize = 0;
    while index < entries.len()
        invariant
            index <= entries.len(),
            copy.len() == index,
            forall|i: int|
                0 <= i < index ==> (#[trigger] copy@[i]).0@ == entries@[i].0@ && copy@[i].1@
                    == entries@[i].1@,
        decreases entries.len() - index,
    {
        copy.push((entries[index].0.duplicate(), entries[index].1.duplicate()));
        index = index + 1;
    }
    proof {
        assert(tree_entries(copy@) =~= tree_entries(entries@));
    }
    copy
}

} // verus!
