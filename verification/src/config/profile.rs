//! Merging configuration layers.

use vstd::prelude::*;

use super::document::read_unsigned;
use super::error::ConfigError;
use crate::text::{concat2, concat3, decimal_u64, same_text};
use crate::yaml::{
    duplicate_entries, entry_value, insert_entry, position_of_key, remove_entry, Yaml,
};

#[allow(unused_imports)]
use super::document::unsigned_reading;
#[allow(unused_imports)]
use super::shapes::shown_key;
#[allow(unused_imports)]
use crate::text::decimal_text;
#[allow(unused_imports)]
use crate::yaml::{
    found_position, key_position, mapping_tree, tree_entries, value_at, with_entry, without_entry,
    Tree,
};

verus! {

/// A value with a layer laid over it. Mappings merge entry by entry; anything
/// else is replaced.
pub open spec fn merged(base: Tree, overlay: Tree) -> Tree
    decreases overlay, 0int,
{
    match overlay {
        Tree::Mapping(entries) => Tree::Mapping(merged_entries(entries_of(base), entries, 0)),
        _ => overlay,
    }
}

/// The entries of a plain mapping, and none of anything else.
pub open spec fn entries_of(tree: Tree) -> Seq<(Tree, Tree)> {
    match tree {
        Tree::Mapping(entries) => entries,
        _ => Seq::empty(),
    }
}

/// Entries with those of a layer from `from` on laid over them. Null removes
/// an entry, except within an environment.
pub open spec fn merged_entries(
    base: Seq<(Tree, Tree)>,
    overlay: Seq<(Tree, Tree)>,
    from: int,
) -> Seq<(Tree, Tree)>
    decreases overlay, overlay.len() - from,
{
    if from < 0 || from >= overlay.len() {
        base
    } else {
        let key = overlay[from].0;
        let value = overlay[from].1;
        let next = if key == Tree::Text("environment"@) && value is Mapping {
            with_entry(base, key, merged_environment(value_at(base, key), value->Mapping_0))
        } else if value.is_null() {
            without_entry(base, key)
        } else {
            match value_at(base, key) {
                Some(existing) => with_entry(base, key, merged(existing, value)),
                None => with_entry(base, key, merged(Tree::Mapping(Seq::empty()), value)),
            }
        };
        merged_entries(next, overlay, from + 1)
    }
}

/// An environment with one laid over it. Nulls stay as tombstones until the
/// effective Process is built.
pub open spec fn merged_environment(existing: Option<Tree>, overlay: Seq<(Tree, Tree)>) -> Tree
    decreases overlay, overlay.len() + 1,
{
    match existing {
        Some(Tree::Mapping(variables)) => Tree::Mapping(merged_variables(variables, overlay, 0)),
        _ => Tree::Mapping(overlay),
    }
}

/// Variables with those of a layer from `from` on laid over them.
pub open spec fn merged_variables(
    existing: Seq<(Tree, Tree)>,
    overlay: Seq<(Tree, Tree)>,
    from: int,
) -> Seq<(Tree, Tree)>
    decreases overlay, overlay.len() - from,
{
    if from < 0 || from >= overlay.len() {
        existing
    } else {
        let name = overlay[from].0;
        let value = overlay[from].1;
        let next = if value.is_null() {
            with_entry(existing, name, Tree::Null)
        } else {
            match value_at(existing, name) {
                Some(current) => with_entry(existing, name, merged(current, value)),
                None => with_entry(existing, name, value),
            }
        };
        merged_variables(next, overlay, from + 1)
    }
}

/// A value with a layer laid over it.
pub fn merge_yaml(base: &Yaml, overlay: &Yaml) -> (r: Yaml)
    ensures
        r@ == merged(base@, overlay@),
    decreases overlay,
{
    match overlay {
        Yaml::Mapping(entries) => {
            let start = match base {
                Yaml::Mapping(known) => {
                    proof {
                        mapping_tree(*known);
                    }
                    duplicate_entries(known)
                },
                _ => Vec::new(),
            };
            proof {
                mapping_tree(*entries);
                assert(tree_entries(start@) =~= entries_of(base@));
            }
            let result = merge_mapping(start, entries);
            proof {
                mapping_tree(result);
            }
            Yaml::Mapping(result)
        },
        _ => overlay.duplicate(),
    }
}

fn is_text(value: &Yaml, text: &str) -> (r: bool)
    ensures
        r == (value@ == Tree::Text(text@)),
{
    match value {
        Yaml::Text(found) => same_text(found.as_str(), text),
        _ => false,
    }
}

fn merge_mapping(base: Vec<(Yaml, Yaml)>, overlay: &Vec<(Yaml, Yaml)>) -> (r: Vec<(Yaml, Yaml)>)
    ensures
        tree_entries(r@) == merged_entries(tree_entries(base@), tree_entries(overlay@), 0),
    decreases overlay,
{
    let mut result = base;
    let ghost start = tree_entries(base@);
    let ghost all = tree_entries(overlay@);
    let mut index: usize = 0;
    while index < overlay.len()
        invariant
            all == tree_entries(overlay@),
            start == tree_entries(base@),
            index <= overlay.len(),
            merged_entries(start, all, 0) == merged_entries(
                tree_entries(result@),
                all,
                index as int,
            ),
        decreases overlay.len() - index,
    {
        let key = &overlay[index].0;
        let value = &overlay[index].1;
        let ghost known = tree_entries(result@);
        proof {
            assert(all[index as int] == (key@, value@));
            found_position(known, key@, 0);
        }
        let merges_environment = match value {
            Yaml::Mapping(_) => is_text(key, "environment"),
            _ => false,
        };
        if merges_environment {
            if let Yaml::Mapping(variables) = value {
                proof {
                    mapping_tree(*variables);
                }
                let existing = match position_of_key(&result, key) {
                    Some(at) => Some(result[at].1.duplicate()),
                    None => None,
                };
                let environment = merge_environment_mapping(existing, variables);
                insert_entry(&mut result, key.duplicate(), environment);
            }
        } else if value.is_null() {
            remove_entry(&mut result, key);
        } else {
            let existing = match position_of_key(&result, key) {
                Some(at) => result[at].1.duplicate(),
                None => {
                    let empty: Vec<(Yaml, Yaml)> = Vec::new();
                    proof {
                        mapping_tree(empty);
                        assert(tree_entries(empty@) =~= Seq::<(Tree, Tree)>::empty());
                    }
                    Yaml::Mapping(empty)
                },
            };
            let combined = merge_yaml(&existing, value);
            insert_entry(&mut result, key.duplicate(), combined);
        }
        index = index + 1;
    }
    result
}

/// Keep environment nulls as tombstones until the effective Process is built.
/// A Process Profile or local override must be able to remove a value that
/// came from an environment file or the parent process.
fn merge_environment_mapping(existing: Option<Yaml>, overlay: &Vec<(Yaml, Yaml)>) -> (r: Yaml)
    ensures
        r@ == merged_environment(
            match existing {
                Some(value) => Some(value@),
                None => None,
            },
            tree_entries(overlay@),
        ),
    decreases overlay,
{
    match existing {
        Some(Yaml::Mapping(variables)) => {
            let ghost start = tree_entries(variables@);
            let ghost all = tree_entries(overlay@);
            proof {
                mapping_tree(variables);
            }
            let mut result = variables;
            let mut index: usize = 0;
            while index < overlay.len()
                invariant
                    all == tree_entries(overlay@),
                    index <= overlay.len(),
                    merged_variables(start, all, 0) == merged_variables(
                        tree_entries(result@),
                        all,
                        index as int,
                    ),
                decreases overlay.len() - index,
            {
                let name = &overlay[index].0;
                let value = &overlay[index].1;
                let ghost known = tree_entries(result@);
                proof {
                    assert(all[index as int] == (name@, value@));
                    found_position(known, name@, 0);
                }
                if value.is_null() {
                    insert_entry(&mut result, name.duplicate(), Yaml::Null);
                } else {
                    let combined = match position_of_key(&result, name) {
                        Some(at) => merge_yaml(&result[at].1, value),
                        None => value.duplicate(),
                    };
                    insert_entry(&mut result, name.duplicate(), combined);
                }
                index = index + 1;
            }
            proof {
                mapping_tree(result);
            }
            Yaml::Mapping(result)
        },
        _ => {
            let copy = duplicate_entries(overlay);
            proof {
                mapping_tree(copy);
            }
            Yaml::Mapping(copy)
        },
    }
}

/// Processes in which an empty entry is an empty mapping.
pub open spec fn completed_processes(processes: Tree) -> Tree
    decreases processes,
{
    match processes {
        Tree::Tagged(tag, value) => Tree::Tagged(tag, Box::new(completed_processes(*value))),
        Tree::Mapping(entries) => Tree::Mapping(completed_entries(entries)),
        _ => processes,
    }
}

/// Entries in which null is an empty mapping.
pub open spec fn completed_entries(entries: Seq<(Tree, Tree)>) -> Seq<(Tree, Tree)> {
    entries.map_values(
        |entry: (Tree, Tree)|
            (
                entry.0,
                if entry.1.is_null() {
                    Tree::Mapping(Seq::empty())
                } else {
                    entry.1
                },
            ),
    )
}

/// A document in which an empty Process entry is an empty mapping.
pub open spec fn completed(document: Tree) -> Tree
    decreases document,
{
    match document {
        Tree::Tagged(tag, value) => Tree::Tagged(tag, Box::new(completed(*value))),
        Tree::Mapping(entries) => match key_position(entries, Tree::Text("processes"@), 0) {
            Some(index) => Tree::Mapping(
                entries.update(index, (entries[index].0, completed_processes(entries[index].1))),
            ),
            None => document,
        },
        _ => document,
    }
}

fn complete_processes(processes: &Yaml) -> (r: Yaml)
    ensures
        r@ == completed_processes(processes@),
    decreases processes,
{
    match processes {
        Yaml::Tagged(tag, value) => Yaml::Tagged(tag.clone(), Box::new(complete_processes(value))),
        Yaml::Mapping(entries) => {
            let mut result: Vec<(Yaml, Yaml)> = Vec::new();
            let ghost all = completed_entries(tree_entries(entries@));
            let mut index: usize = 0;
            while index < entries.len()
                invariant
                    all == completed_entries(tree_entries(entries@)),
                    index <= entries.len(),
                    tree_entries(result@) == all.take(index as int),
                decreases entries.len() - index,
            {
                let ghost before = tree_entries(result@);
                let key = entries[index].0.duplicate();
                let value = if entries[index].1.is_null() {
                    let empty: Vec<(Yaml, Yaml)> = Vec::new();
                    proof {
                        mapping_tree(empty);
                        assert(tree_entries(empty@) =~= Seq::<(Tree, Tree)>::empty());
                    }
                    Yaml::Mapping(empty)
                } else {
                    entries[index].1.duplicate()
                };
                let ghost entry = (key@, value@);
                result.push((key, value));
                index = index + 1;
                proof {
                    assert(tree_entries(result@) =~= before.push(entry));
                    assert(all.take(index as int) =~= all.take(index - 1).push(all[index - 1]));
                }
            }
            proof {
                assert(all.take(index as int) =~= all);
                mapping_tree(*entries);
                mapping_tree(result);
            }
            Yaml::Mapping(result)
        },
        _ => processes.duplicate(),
    }
}

/// Keep an empty keyed Process entry representable until typed validation can
/// report which required command form is missing.
fn normalize_process_entries(document: &Yaml) -> (r: Yaml)
    ensures
        r@ == completed(document@),
    decreases document,
{
    match document {
        Yaml::Tagged(tag, value) => Yaml::Tagged(
            tag.clone(),
            Box::new(normalize_process_entries(value)),
        ),
        Yaml::Mapping(entries) => {
            proof {
                mapping_tree(*entries);
                found_position(tree_entries(entries@), Tree::Text("processes"@), 0);
            }
            let key = Yaml::Text("processes".to_owned());
            match position_of_key(entries, &key) {
                Some(at) => {
                    let mut result = duplicate_entries(entries);
                    let ghost before = tree_entries(result@);
                    let kept = entries[at].0.duplicate();
                    let processes = complete_processes(&entries[at].1);
                    proof {
                        assert(before[at as int] == (entries@[at as int].0@, entries@[at as int].1@)) by {
                            assert(tree_entries(entries@)[at as int] == (
                                entries@[at as int].0@,
                                entries@[at as int].1@,
                            ));
                        }
                    }
                    let ghost entry = (kept@, processes@);
                    result.set(at, (kept, processes));
                    proof {
                        assert(tree_entries(result@) =~= before.update(at as int, entry));
                        mapping_tree(result);
                    }
                    Yaml::Mapping(result)
                },
                None => document.duplicate(),
            }
        },
        _ => document.duplicate(),
    }
}

/// The first null Process of a local override, from `from` on.
pub open spec fn null_process(processes: Seq<(Tree, Tree)>, from: int) -> Option<Seq<char>>
    decreases processes.len() - from,
{
    if from < 0 || from >= processes.len() {
        None
    } else if processes[from].1.is_null() {
        Some(
            "local override Process '"@ + shown_key(processes[from].0)
                + "' must define a complete Process"@,
        )
    } else {
        null_process(processes, from + 1)
    }
}

/// Why a local override cannot be applied.
pub open spec fn local_fault(local: Tree) -> Option<Seq<char>> {
    match local.as_mapping() {
        None => Some("local override must be a mapping"@),
        Some(root) => match value_at(root, Tree::Text("processes"@)) {
            Some(processes) => if processes.is_null() {
                Some("local override processes cannot be null"@)
            } else {
                match version_fault(root) {
                    Some(fault) => Some(fault),
                    None => match processes.as_mapping() {
                        Some(entries) => null_process(entries, 0),
                        None => None,
                    },
                }
            },
            None => version_fault(root),
        },
    }
}

/// Why the version of a local override cannot be taken.
pub open spec fn version_fault(root: Seq<(Tree, Tree)>) -> Option<Seq<char>> {
    match value_at(root, Tree::Text("version"@)) {
        None => None,
        Some(version) => match unsigned_reading(version) {
            Err(detail) => Some(
                "local override version must be an unsigned integer: "@ + detail,
            ),
            Ok(number) => if number != 1 {
                Some(
                    "local override cannot change schema version from 1 to "@ + decimal_text(
                        number as nat,
                    ),
                )
            } else {
                None
            },
        },
    }
}

/// A document with a local override laid over it.
pub open spec fn overridden(document: Tree, local: Tree) -> Tree {
    completed(merged(completed(document), local))
}

fn reject_null_processes(processes: &Yaml) -> (r: Result<(), ConfigError>)
    ensures
        super::shapes::fault_of(r) == (match processes@.as_mapping() {
            Some(entries) => null_process(entries, 0),
            None => None,
        }),
{
    let entries = match processes.as_mapping() {
        Some(entries) => entries,
        None => {
            return Ok(());
        },
    };
    let ghost all = tree_entries(entries@);
    let mut index: usize = 0;
    while index < entries.len()
        invariant
            all == tree_entries(entries@),
            processes@.as_mapping() == Some(all),
            index <= entries.len(),
            null_process(all, 0) == null_process(all, index as int),
        decreases entries.len() - index,
    {
        proof {
            assert(all[index as int] == (entries@[index as int].0@, entries@[index as int].1@));
        }
        if entries[index].1.is_null() {
            let name = match entries[index].0.as_text() {
                Some(name) => name.as_str(),
                None => "<non-string>",
            };
            return Err(
                ConfigError {
                    message: concat3(
                        "local override Process '",
                        name,
                        "' must define a complete Process",
                    ),
                },
            );
        }
        index = index + 1;
    }
    Ok(())
}

fn check_local_version(root: &Vec<(Yaml, Yaml)>) -> (r: Result<(), ConfigError>)
    ensures
        super::shapes::fault_of(r) == version_fault(tree_entries(root@)),
{
    match entry_value(root, "version") {
        None => Ok(()),
        Some(version) => match read_unsigned(version) {
            Err(detail) => Err(
                ConfigError {
                    message: concat2(
                        "local override version must be an unsigned integer: ",
                        detail.as_str(),
                    ),
                },
            ),
            Ok(number) => {
                if number != 1 {
                    let shown = decimal_u64(number);
                    return Err(
                        ConfigError {
                            message: concat2(
                                "local override cannot change schema version from 1 to ",
                                shown.as_str(),
                            ),
                        },
                    );
                }
                Ok(())
            },
        },
    }
}

/// Apply one same-directory local override. A local file may repeat the schema
/// version, but it cannot replace a complete Process with null.
pub fn apply_local_override(document: &Yaml, local: &Yaml) -> (r: Result<Yaml, ConfigError>)
    ensures
        match r {
            Ok(result) => local_fault(local@) is None && result@ == overridden(document@, local@),
            Err(error) => local_fault(local@) == Some(error.message@),
        },
{
    let root = match local.as_mapping() {
        Some(root) => root,
        None => {
            return Err(
                ConfigError { message: "local override must be a mapping".to_owned() },
            );
        },
    };
    let processes = entry_value(root, "processes");
    if let Some(processes) = processes {
        if processes.is_null() {
            return Err(
                ConfigError { message: "local override processes cannot be null".to_owned() },
            );
        }
    }
    if let Err(error) = check_local_version(root) {
        return Err(error);
    }
    if let Some(processes) = processes {
        if let Err(error) = reject_null_processes(processes) {
            return Err(error);
        }
    }
    let base = normalize_process_entries(document);
    let combined = merge_yaml(&base, local);
    Ok(normalize_process_entries(&combined))
}

/// A mapping, tagged or not, without an entry.
pub open spec fn without_field(tree: Tree, name: Seq<char>) -> Tree
    decreases tree,
{
    match tree {
        Tree::Tagged(tag, value) => Tree::Tagged(tag, Box::new(without_field(*value, name))),
        Tree::Mapping(entries) => Tree::Mapping(without_entry(entries, Tree::Text(name))),
        _ => tree,
    }
}

/// A mapping, tagged or not, without an entry.
pub fn remove_field(tree: &Yaml, name: &str) -> (r: Yaml)
    ensures
        r@ == without_field(tree@, name@),
    decreases tree,
{
    match tree {
        Yaml::Tagged(tag, value) => Yaml::Tagged(tag.clone(), Box::new(remove_field(value, name))),
        Yaml::Mapping(entries) => {
            let mut result = duplicate_entries(entries);
            let key = Yaml::Text(name.to_owned());
            remove_entry(&mut result, &key);
            proof {
                mapping_tree(*entries);
                mapping_tree(result);
            }
            Yaml::Mapping(result)
        },
        _ => tree.duplicate(),
    }
}

/// A Process with one Process Profile laid over it. Dependencies form one
/// coherent startup contract, so a profile replaces the complete mapping
/// instead of inheriting entries.
pub open spec fn profiled(base: Tree, patch: Tree) -> Tree {
    if patch.field("depends_on"@) is Some {
        merged(without_field(base, "depends_on"@), patch)
    } else {
        merged(base, patch)
    }
}

/// Merge one Process Profile.
pub fn merge_process_profile(base: &Yaml, patch: &Yaml) -> (r: Yaml)
    ensures
        r@ == profiled(base@, patch@),
{
    if patch.field("depends_on").is_some() {
        let bare = remove_field(base, "depends_on");
        merge_yaml(&bare, patch)
    } else {
        merge_yaml(base, patch)
    }
}

/// Whether no key occurs twice.
pub open spec fn distinct_keys(entries: Seq<(Tree, Tree)>) -> bool {
    forall|i: int, j: int|
        0 <= i < j < entries.len() ==> (#[trigger] entries[i]).0 != (#[trigger] entries[j]).0
}

/// A key that was set is read back.
pub proof fn set_entry_is_read_back(entries: Seq<(Tree, Tree)>, key: Tree, value: Tree)
    ensures
        value_at(with_entry(entries, key, value), key) == Some(value),
{
    let after = with_entry(entries, key, value);
    found_position(entries, key, 0);
    found_position(after, key, 0);
    let known = match key_position(entries, key, 0) {
        Some(index) => index,
        None => entries.len() as int,
    };
    assert(after[known] == (key, value));
    match key_position(after, key, 0) {
        Some(found) => {
            if found < known {
                assert(entries[found].0 == key);
            }
        },
        None => {},
    }
}

/// Setting a key leaves every other key as it was.
pub proof fn other_entries_stay(entries: Seq<(Tree, Tree)>, key: Tree, value: Tree, other: Tree)
    requires
        other != key,
    ensures
        value_at(with_entry(entries, key, value), other) == value_at(entries, other),
{
    let after = with_entry(entries, key, value);
    found_position(entries, key, 0);
    found_position(entries, other, 0);
    found_position(after, other, 0);
    match key_position(entries, other, 0) {
        Some(index) => {
            assert(after[index] == entries[index]);
            match key_position(after, other, 0) {
                Some(found) => {
                    if found < index {
                        assert(entries[found].0 == other);
                    }
                },
                None => {},
            }
        },
        None => {
            match key_position(after, other, 0) {
                Some(found) => {
                    if found < entries.len() {
                        assert(entries[found].0 == other);
                    }
                },
                None => {},
            }
        },
    }
}

/// A key that was removed is gone.
pub proof fn removed_entry_is_gone(entries: Seq<(Tree, Tree)>, key: Tree)
    requires
        distinct_keys(entries),
    ensures
        value_at(without_entry(entries, key), key) is None,
        distinct_keys(without_entry(entries, key)),
{
    let after = without_entry(entries, key);
    found_position(entries, key, 0);
    found_position(after, key, 0);
    match key_position(entries, key, 0) {
        Some(index) => {
            let last = entries.len() - 1;
            assert forall|i: int| 0 <= i < after.len() implies (#[trigger] after[i]) == (if i
                == index {
                entries[last]
            } else {
                entries[i]
            }) by {}
            assert forall|i: int| 0 <= i < after.len() implies (#[trigger] after[i]).0 != key by {
                if i == index {
                    assert(entries[index].0 != entries[last].0);
                } else if i < index {
                    assert(entries[i].0 != entries[index].0);
                } else {
                    assert(entries[index].0 != entries[i].0);
                }
            }
            assert forall|i: int, j: int| 0 <= i < j < after.len() implies (#[trigger] after[i]).0
                != (#[trigger] after[j]).0 by {
                if i == index {
                    assert(entries[j].0 != entries[last].0);
                } else if j == index {
                    assert(entries[i].0 != entries[last].0);
                } else {
                    assert(entries[i].0 != entries[j].0);
                }
            }
        },
        None => {},
    }
}

/// Removing a key leaves every other key as it was.
pub proof fn other_entries_outlast_a_removal(
    entries: Seq<(Tree, Tree)>,
    key: Tree,
    other: Tree,
)
    requires
        distinct_keys(entries),
        other != key,
    ensures
        value_at(without_entry(entries, key), other) == value_at(entries, other),
{
    let after = without_entry(entries, key);
    removed_entry_is_gone(entries, key);
    found_position(entries, key, 0);
    found_position(entries, other, 0);
    found_position(after, other, 0);
    if let Some(gone) = key_position(entries, key, 0) {
        let last = entries.len() - 1;
        assert forall|i: int| 0 <= i < after.len() implies (#[trigger] after[i]) == (if i == gone {
            entries[last]
        } else {
            entries[i]
        }) by {}
        match key_position(entries, other, 0) {
            Some(index) => {
                let moved = if index == last {
                    gone
                } else {
                    index
                };
                assert(after[moved] == entries[index]);
                match key_position(after, other, 0) {
                    Some(found) => {
                        if found < moved {
                            assert(after[found].0 != after[moved].0);
                        }
                    },
                    None => {},
                }
            },
            None => {
                if let Some(found) = key_position(after, other, 0) {
                    assert(after[found] == entries[if found == gone {
                        last
                    } else {
                        found
                    }]);
                }
            },
        }
    }
}

/// Setting a key makes no key occur twice.
pub proof fn setting_keeps_keys_distinct(entries: Seq<(Tree, Tree)>, key: Tree, value: Tree)
    requires
        distinct_keys(entries),
    ensures
        distinct_keys(with_entry(entries, key, value)),
{
    let after = with_entry(entries, key, value);
    found_position(entries, key, 0);
    assert forall|i: int, j: int| 0 <= i < j < after.len() implies (#[trigger] after[i]).0 != (
    #[trigger] after[j]).0 by {
        assert(i < entries.len() ==> after[i].0 == entries[i].0);
        assert(j < entries.len() ==> after[j].0 == entries[j].0);
    }
}

/// A layer leaves every entry that it does not name as it was.
pub proof fn unnamed_entries_stay(
    base: Seq<(Tree, Tree)>,
    overlay: Seq<(Tree, Tree)>,
    from: int,
    key: Tree,
)
    requires
        0 <= from <= overlay.len(),
        distinct_keys(base),
        forall|i: int| from <= i < overlay.len() ==> (#[trigger] overlay[i]).0 != key,
    ensures
        value_at(merged_entries(base, overlay, from), key) == value_at(base, key),
    decreases overlay.len() - from,
{
    if from < overlay.len() {
        let name = overlay[from].0;
        let value = overlay[from].1;
        if name == Tree::Text("environment"@) && value is Mapping {
            let environment = merged_environment(value_at(base, name), value->Mapping_0);
            other_entries_stay(base, name, environment, key);
            setting_keeps_keys_distinct(base, name, environment);
            unnamed_entries_stay(with_entry(base, name, environment), overlay, from + 1, key);
        } else if value.is_null() {
            other_entries_outlast_a_removal(base, name, key);
            removed_entry_is_gone(base, name);
            unnamed_entries_stay(without_entry(base, name), overlay, from + 1, key);
        } else {
            let combined = match value_at(base, name) {
                Some(existing) => merged(existing, value),
                None => merged(Tree::Mapping(Seq::empty()), value),
            };
            other_entries_stay(base, name, combined, key);
            setting_keeps_keys_distinct(base, name, combined);
            unnamed_entries_stay(with_entry(base, name, combined), overlay, from + 1, key);
        }
    }
}

/// A Process Profile leaves every field that it does not name as the base has
/// it.
pub proof fn unpatched_fields_stay(
    base: Seq<(Tree, Tree)>,
    patch: Seq<(Tree, Tree)>,
    field: Seq<char>,
)
    requires
        distinct_keys(base),
        forall|i: int| 0 <= i < patch.len() ==> (#[trigger] patch[i]).0 != Tree::Text(field),
    ensures
        profiled(Tree::Mapping(base), Tree::Mapping(patch)).field(field) == Tree::Mapping(
            base,
        ).field(field),
{
    let key = Tree::Text(field);
    let dependencies = Tree::Text("depends_on"@);
    if value_at(patch, dependencies) is Some {
        found_position(patch, dependencies, 0);
        removed_entry_is_gone(base, dependencies);
        other_entries_outlast_a_removal(base, dependencies, key);
        unnamed_entries_stay(without_entry(base, dependencies), patch, 0, key);
    } else {
        unnamed_entries_stay(base, patch, 0, key);
    }
}

/// An entry of a layer that is no mapping replaces what was there, and null
/// takes it away.
pub proof fn named_entry_wins(
    base: Seq<(Tree, Tree)>,
    overlay: Seq<(Tree, Tree)>,
    from: int,
    at: int,
)
    requires
        0 <= from <= at < overlay.len(),
        distinct_keys(base),
        forall|i: int| at < i < overlay.len() ==> (#[trigger] overlay[i]).0 != overlay[at].0,
        !(overlay[at].1 is Mapping),
    ensures
        value_at(merged_entries(base, overlay, from), overlay[at].0) == (if overlay[at].1.is_null() {
            None
        } else {
            Some(overlay[at].1)
        }),
    decreases at - from,
{
    let name = overlay[from].0;
    let value = overlay[from].1;
    let next = if name == Tree::Text("environment"@) && value is Mapping {
        with_entry(base, name, merged_environment(value_at(base, name), value->Mapping_0))
    } else if value.is_null() {
        without_entry(base, name)
    } else {
        match value_at(base, name) {
            Some(existing) => with_entry(base, name, merged(existing, value)),
            None => with_entry(base, name, merged(Tree::Mapping(Seq::empty()), value)),
        }
    };
    if name == Tree::Text("environment"@) && value is Mapping {
        setting_keeps_keys_distinct(
            base,
            name,
            merged_environment(value_at(base, name), value->Mapping_0),
        );
    } else if value.is_null() {
        removed_entry_is_gone(base, name);
    } else {
        match value_at(base, name) {
            Some(existing) => setting_keeps_keys_distinct(base, name, merged(existing, value)),
            None => setting_keeps_keys_distinct(
                base,
                name,
                merged(Tree::Mapping(Seq::empty()), value),
            ),
        }
    }
    if from < at {
        named_entry_wins(next, overlay, from + 1, at);
    } else {
        unnamed_entries_stay(next, overlay, from + 1, name);
        if !value.is_null() {
            set_entry_is_read_back(base, name, value);
        }
    }
}

/// A Process Profile sets a field to its own value, or takes the field away
/// where it says null. (A mapping is laid over the mapping of the base.)
pub proof fn patched_fields_win(
    base: Seq<(Tree, Tree)>,
    patch: Seq<(Tree, Tree)>,
    field: Seq<char>,
    at: int,
)
    requires
        distinct_keys(base),
        0 <= at < patch.len(),
        patch[at].0 == Tree::Text(field),
        forall|i: int| at < i < patch.len() ==> (#[trigger] patch[i]).0 != Tree::Text(field),
        !(patch[at].1 is Mapping),
    ensures
        profiled(Tree::Mapping(base), Tree::Mapping(patch)).field(field) == (if patch[at].1.is_null() {
            None
        } else {
            Some(patch[at].1)
        }),
{
    let dependencies = Tree::Text("depends_on"@);
    if value_at(patch, dependencies) is Some {
        removed_entry_is_gone(base, dependencies);
        named_entry_wins(without_entry(base, dependencies), patch, 0, at);
    } else {
        named_entry_wins(base, patch, 0, at);
    }
}

/// A Process Profile that names Dependencies replaces them whole: what the base
/// says of its Dependencies does not matter.
pub proof fn patched_dependencies_replace_the_base(a: Tree, b: Tree, patch: Tree)
    requires
        patch.field("depends_on"@) is Some,
        without_field(a, "depends_on"@) == without_field(b, "depends_on"@),
    ensures
        profiled(a, patch) == profiled(b, patch),
{
}

/// A layer that says nothing changes nothing.
pub proof fn empty_layer_changes_nothing(entries: Seq<(Tree, Tree)>)
    ensures
        merged(Tree::Mapping(entries), Tree::Mapping(Seq::empty())) == Tree::Mapping(entries),
{
}

/// A layer with a single entry sets it, or removes it where it is null.
pub proof fn single_entry_layer(entries: Seq<(Tree, Tree)>, key: Tree, value: Tree)
    requires
        distinct_keys(entries),
        key != Tree::Text("environment"@),
    ensures
        ({
            let after = merged(Tree::Mapping(entries), Tree::Mapping(seq![(key, value)]));
            &&& after is Mapping
            &&& value.is_null() ==> value_at(after->Mapping_0, key) is None
            &&& !value.is_null() && !(value is Mapping) ==> value_at(after->Mapping_0, key) == Some(
                value,
            )
        }),
{
    let overlay = seq![(key, value)];
    reveal_with_fuel(merged_entries, 2);
    let after = merged_entries(entries, overlay, 0);
    assert(overlay[0] == (key, value));
    assert(merged(Tree::Mapping(entries), Tree::Mapping(overlay)) == Tree::Mapping(after));
    if value.is_null() {
        removed_entry_is_gone(entries, key);
        assert(after == without_entry(entries, key));
    } else if !(value is Mapping) {
        set_entry_is_read_back(entries, key, value);
        assert(after == with_entry(entries, key, value));
    }
}

/// Within an environment null stays: it is a tombstone that a later step turns
/// into a removal, and it does not bring the earlier value back.
pub proof fn environment_null_is_a_tombstone(variables: Seq<(Tree, Tree)>, name: Tree)
    ensures
        value_at(merged_variables(variables, seq![(name, Tree::Null)], 0), name) == Some(
            Tree::Null,
        ),
{
    reveal_with_fuel(merged_variables, 2);
    set_entry_is_read_back(variables, name, Tree::Null);
}

} // verus!
