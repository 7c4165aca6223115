//! What a local override changes, and what it leaves alone.

use vstd::prelude::*;

#[allow(unused_imports)]
use super::layers::raw_process;
#[allow(unused_imports)]
use super::profile::{
    completed, completed_entries, completed_processes, distinct_keys, merged, merged_entries,
    merged_environment, merged_variables, named_entry_wins, other_entries_outlast_a_removal,
    other_entries_stay, overridden, removed_entry_is_gone, set_entry_is_read_back,
    setting_keeps_keys_distinct, unnamed_entries_stay,
};
#[allow(unused_imports)]
use crate::yaml::{found_position, key_position, value_at, with_entry, without_entry, Tree};

verus! {

proof fn step_keeps_others(base: Seq<(Tree, Tree)>, name: Tree, value: Tree, key: Tree)
    requires
        distinct_keys(base),
        name != key,
    ensures
        ({
            let next = if name == Tree::Text("environment"@) && value is Mapping {
                with_entry(base, name, merged_environment(value_at(base, name), value->Mapping_0))
            } else if value.is_null() {
                without_entry(base, name)
            } else {
                match value_at(base, name) {
                    Some(existing) => with_entry(base, name, merged(existing, value)),
                    None => with_entry(base, name, merged(Tree::Mapping(Seq::empty()), value)),
                }
            };
            distinct_keys(next) && value_at(next, key) == value_at(base, key)
        }),
{
    if name == Tree::Text("environment"@) && value is Mapping {
        let combined = merged_environment(value_at(base, name), value->Mapping_0);
        other_entries_stay(base, name, combined, key);
        setting_keeps_keys_distinct(base, name, combined);
    } else if value.is_null() {
        other_entries_outlast_a_removal(base, name, key);
        removed_entry_is_gone(base, name);
    } else {
        let combined = match value_at(base, name) {
            Some(existing) => merged(existing, value),
            None => merged(Tree::Mapping(Seq::empty()), value),
        };
        other_entries_stay(base, name, combined, key);
        setting_keeps_keys_distinct(base, name, combined);
    }
}

proof fn mapping_from_is_merged(
    base: Seq<(Tree, Tree)>,
    overlay: Seq<(Tree, Tree)>,
    from: int,
    at: int,
)
    requires
        0 <= from <= at < overlay.len(),
        distinct_keys(base),
        forall|i: int| 0 <= i < overlay.len() && i != at ==> (#[trigger] overlay[i]).0
            != overlay[at].0,
        overlay[at].1 is Mapping,
        overlay[at].0 != Tree::Text("environment"@),
    ensures
        value_at(merged_entries(base, overlay, from), overlay[at].0) == Some(
            merged(
                match value_at(base, overlay[at].0) {
                    Some(existing) => existing,
                    None => Tree::Mapping(Seq::empty()),
                },
                overlay[at].1,
            ),
        ),
    decreases at - from,
{
    let key = overlay[at].0;
    let name = overlay[from].0;
    let value = overlay[from].1;
    if from < at {
        step_keeps_others(base, name, value, key);
        let next = if name == Tree::Text("environment"@) && value is Mapping {
            with_entry(base, name, merged_environment(value_at(base, name), value->Mapping_0))
        } else if value.is_null() {
            without_entry(base, name)
        } else {
            match value_at(base, name) {
                Some(existing) => with_entry(base, name, merged(existing, value)),
                None => with_entry(base, name, merged(Tree::Mapping(Seq::empty()), value)),
            }
        };
        mapping_from_is_merged(next, overlay, from + 1, at);
    } else {
        let combined = merged(
            match value_at(base, key) {
                Some(existing) => existing,
                None => Tree::Mapping(Seq::empty()),
            },
            value,
        );
        set_entry_is_read_back(base, key, combined);
        setting_keeps_keys_distinct(base, key, combined);
        unnamed_entries_stay(with_entry(base, key, combined), overlay, from + 1, key);
    }
}

/// A mapping of a layer is laid over the mapping that was there.
pub proof fn mappings_are_merged(base: Seq<(Tree, Tree)>, overlay: Seq<(Tree, Tree)>, at: int)
    requires
        distinct_keys(base),
        distinct_keys(overlay),
        0 <= at < overlay.len(),
        overlay[at].1 is Mapping,
        overlay[at].0 != Tree::Text("environment"@),
    ensures
        value_at(merged_entries(base, overlay, 0), overlay[at].0) == Some(
            merged(
                match value_at(base, overlay[at].0) {
                    Some(existing) => existing,
                    None => Tree::Mapping(Seq::empty()),
                },
                overlay[at].1,
            ),
        ),
{
    assert forall|i: int| 0 <= i < overlay.len() && i != at implies (#[trigger] overlay[i]).0
        != overlay[at].0 by {
        if i < at {
            assert(overlay[i].0 != overlay[at].0);
        } else {
            assert(overlay[at].0 != overlay[i].0);
        }
    }
    mapping_from_is_merged(base, overlay, 0, at);
}

proof fn found_value(entries: Seq<(Tree, Tree)>, key: Tree) -> (at: int)
    requires
        value_at(entries, key) is Some,
    ensures
        0 <= at < entries.len(),
        entries[at] == (key, value_at(entries, key)->0),
{
    found_position(entries, key, 0);
    key_position(entries, key, 0)->0
}

proof fn absent_value(entries: Seq<(Tree, Tree)>, key: Tree)
    requires
        value_at(entries, key) is None,
    ensures
        forall|i: int| 0 <= i < entries.len() ==> (#[trigger] entries[i]).0 != key,
{
    found_position(entries, key, 0);
}

/// What is left of a value under a layer: the layer's own where it has one that
/// is no mapping, nothing where it says null, and the old one where it says
/// nothing.
pub open spec fn layered(old: Option<Tree>, new: Option<Tree>, left: Option<Tree>) -> bool {
    match new {
        None => left == old,
        Some(value) => {
            &&& value.is_null() ==> left is None
            &&& !value.is_null() && !(value is Mapping) ==> left == Some(value)
        },
    }
}

/// A layer changes the entries that it names, as it says, and no others.
pub proof fn layers_change_what_they_name(
    base: Seq<(Tree, Tree)>,
    overlay: Seq<(Tree, Tree)>,
    key: Tree,
)
    requires
        distinct_keys(base),
        distinct_keys(overlay),
    ensures
        layered(
            value_at(base, key),
            value_at(overlay, key),
            value_at(merged_entries(base, overlay, 0), key),
        ),
{
    if value_at(overlay, key) is Some {
        let at = found_value(overlay, key);
        if !(overlay[at].1 is Mapping) {
            assert forall|i: int| at < i < overlay.len() implies (#[trigger] overlay[i]).0
                != overlay[at].0 by {
                assert(overlay[at].0 != overlay[i].0);
            }
            named_entry_wins(base, overlay, 0, at);
        }
    } else {
        absent_value(overlay, key);
        unnamed_entries_stay(base, overlay, 0, key);
    }
}

proof fn completion_keeps_values(entries: Seq<(Tree, Tree)>, key: Tree, from: int)
    requires
        0 <= from,
    ensures
        key_position(completed_entries(entries), key, from) == key_position(entries, key, from),
    decreases entries.len() - from,
{
    if from < entries.len() {
        assert(completed_entries(entries)[from].0 == entries[from].0);
        completion_keeps_values(entries, key, from + 1);
    }
}

proof fn completion_completes(entries: Seq<(Tree, Tree)>, key: Tree)
    ensures
        value_at(completed_entries(entries), key) == (match value_at(entries, key) {
            Some(value) => Some(
                if value.is_null() {
                    Tree::Mapping(Seq::empty())
                } else {
                    value
                },
            ),
            None => None,
        }),
        distinct_keys(entries) ==> distinct_keys(completed_entries(entries)),
{
    completion_keeps_values(entries, key, 0);
    found_position(entries, key, 0);
    let after = completed_entries(entries);
    assert forall|i: int, j: int|
        0 <= i < j < after.len() && distinct_keys(entries) implies (#[trigger] after[i]).0 != (
    #[trigger] after[j]).0 by {
        assert(entries[i].0 != entries[j].0);
    }
}

proof fn document_is_completed(document: Seq<(Tree, Tree)>, processes: Seq<(Tree, Tree)>)
    requires
        distinct_keys(document),
        value_at(document, Tree::Text("processes"@)) == Some(Tree::Mapping(processes)),
    ensures
        completed(Tree::Mapping(document)) is Mapping,
        distinct_keys(completed(Tree::Mapping(document))->Mapping_0),
        value_at(completed(Tree::Mapping(document))->Mapping_0, Tree::Text("processes"@)) == Some(
            Tree::Mapping(completed_entries(processes)),
        ),
{
    let key = Tree::Text("processes"@);
    found_position(document, key, 0);
    let at = key_position(document, key, 0)->0;
    let after = completed(Tree::Mapping(document))->Mapping_0;
    assert(after == with_entry(document, key, Tree::Mapping(completed_entries(processes))));
    set_entry_is_read_back(document, key, Tree::Mapping(completed_entries(processes)));
    setting_keeps_keys_distinct(document, key, Tree::Mapping(completed_entries(processes)));
}

/// The Processes of a document under a local override that has some, too: the
/// layer's Processes laid over those of the document, an empty Process standing
/// for a null one before and after.
proof fn processes_are_merged(
    document: Seq<(Tree, Tree)>,
    local: Seq<(Tree, Tree)>,
    before: Seq<(Tree, Tree)>,
    changes: Seq<(Tree, Tree)>,
)
    requires
        distinct_keys(document),
        distinct_keys(local),
        value_at(document, Tree::Text("processes"@)) == Some(Tree::Mapping(before)),
        value_at(local, Tree::Text("processes"@)) == Some(Tree::Mapping(changes)),
    ensures
        overridden(Tree::Mapping(document), Tree::Mapping(local)).field("processes"@) == Some(
            Tree::Mapping(
                completed_entries(merged_entries(completed_entries(before), changes, 0)),
            ),
        ),
{
    let key = Tree::Text("processes"@);
    reveal_strlit("processes");
    reveal_strlit("environment");
    assert("processes"@.len() == 9);
    assert("environment"@.len() == 11);
    document_is_completed(document, before);
    let whole = completed(Tree::Mapping(document))->Mapping_0;
    let at = found_value(local, key);
    mappings_are_merged(whole, local, at);
    let combined = merged_entries(whole, local, 0);
    let laid = merged_entries(completed_entries(before), changes, 0);
    assert(value_at(combined, key) == Some(Tree::Mapping(laid)));
    merging_keeps_keys_distinct(whole, local, 0);
    document_is_completed(combined, laid);
}

proof fn merging_keeps_keys_distinct(
    base: Seq<(Tree, Tree)>,
    overlay: Seq<(Tree, Tree)>,
    from: int,
)
    requires
        0 <= from <= overlay.len(),
        distinct_keys(base),
    ensures
        distinct_keys(merged_entries(base, overlay, from)),
    decreases overlay.len() - from,
{
    if from < overlay.len() {
        let name = overlay[from].0;
        let value = overlay[from].1;
        let next = if name == Tree::Text("environment"@) && value is Mapping {
            with_entry(base, name, merged_environment(value_at(base, name), value->Mapping_0))
        } else if value.is_null() {
            without_entry(base, name)
        } else {
            match value_at(base, name) {
                Some(existing) => with_entry(base, name, merged(existing, value)),
                None => with_entry(base, name, merged(Tree::Mapping(Seq::empty()), value)),
            }
        };
        if name == Tree::Text("environment"@) && value is Mapping {
            setting_keeps_keys_distinct(
                base,
                name,
                merged_environment(value_at(base, name), value->Mapping_0),
            );
        } else if value.is_null() {
            removed_entry_is_gone(base, name);
        } else {
            setting_keeps_keys_distinct(
                base,
                name,
                match value_at(base, name) {
                    Some(existing) => merged(existing, value),
                    None => merged(Tree::Mapping(Seq::empty()), value),
                },
            );
        }
        merging_keeps_keys_distinct(next, overlay, from + 1);
    }
}

/// A local override changes the fields of a Process that it names, as it says,
/// and leaves its other fields alone.
pub proof fn local_fields_win(
    document: Seq<(Tree, Tree)>,
    local: Seq<(Tree, Tree)>,
    before: Seq<(Tree, Tree)>,
    changes: Seq<(Tree, Tree)>,
    name: Seq<char>,
    old: Seq<(Tree, Tree)>,
    new: Seq<(Tree, Tree)>,
    field: Seq<char>,
)
    requires
        distinct_keys(document),
        distinct_keys(local),
        distinct_keys(before),
        distinct_keys(changes),
        distinct_keys(old),
        distinct_keys(new),
        name != "environment"@,
        value_at(document, Tree::Text("processes"@)) == Some(Tree::Mapping(before)),
        value_at(local, Tree::Text("processes"@)) == Some(Tree::Mapping(changes)),
        value_at(before, Tree::Text(name)) == Some(Tree::Mapping(old)),
        value_at(changes, Tree::Text(name)) == Some(Tree::Mapping(new)),
    ensures
        layered(
            value_at(old, Tree::Text(field)),
            value_at(new, Tree::Text(field)),
            raw_process(overridden(Tree::Mapping(document), Tree::Mapping(local)), name).field(
                field,
            ),
        ),
{
    let key = Tree::Text(name);
    processes_are_merged(document, local, before, changes);
    let start = completed_entries(before);
    completion_completes(before, key);
    let at = found_value(changes, key);
    mappings_are_merged(start, changes, at);
    let laid = merged_entries(start, changes, 0);
    assert(value_at(laid, key) == Some(Tree::Mapping(merged_entries(old, new, 0))));
    completion_completes(laid, key);
    layers_change_what_they_name(old, new, Tree::Text(field));
}

/// A Process that a local override does not name stays as it is.
pub proof fn other_processes_stay(
    document: Seq<(Tree, Tree)>,
    local: Seq<(Tree, Tree)>,
    before: Seq<(Tree, Tree)>,
    changes: Seq<(Tree, Tree)>,
    name: Seq<char>,
)
    requires
        distinct_keys(document),
        distinct_keys(local),
        distinct_keys(before),
        distinct_keys(changes),
        value_at(document, Tree::Text("processes"@)) == Some(Tree::Mapping(before)),
        value_at(local, Tree::Text("processes"@)) == Some(Tree::Mapping(changes)),
        value_at(changes, Tree::Text(name)) is None,
        value_at(before, Tree::Text(name)) matches Some(process) && !process.is_null(),
    ensures
        raw_process(overridden(Tree::Mapping(document), Tree::Mapping(local)), name)
            == value_at(before, Tree::Text(name))->0,
{
    let key = Tree::Text(name);
    processes_are_merged(document, local, before, changes);
    completion_completes(before, key);
    let start = completed_entries(before);
    completion_completes(start, key);
    layers_change_what_they_name(start, changes, key);
    completion_completes(merged_entries(start, changes, 0), key);
}

/// A local override changes the settings that it names, as it says, and no
/// others.
pub proof fn local_settings_win(
    document: Seq<(Tree, Tree)>,
    local: Seq<(Tree, Tree)>,
    field: Seq<char>,
)
    requires
        distinct_keys(document),
        distinct_keys(local),
        field != "processes"@,
    ensures
        layered(
            value_at(document, Tree::Text(field)),
            value_at(local, Tree::Text(field)),
            overridden(Tree::Mapping(document), Tree::Mapping(local)).field(field),
        ),
{
    let key = Tree::Text(field);
    let processes = Tree::Text("processes"@);
    let whole = completed(Tree::Mapping(document))->Mapping_0;
    if let Some(at) = key_position(document, processes, 0) {
        found_position(document, processes, 0);
        let value = completed_processes(document[at].1);
        assert(whole == with_entry(document, processes, value));
        other_entries_stay(document, processes, value, key);
        setting_keeps_keys_distinct(document, processes, value);
    }
    layers_change_what_they_name(whole, local, key);
    let combined = merged_entries(whole, local, 0);
    if let Some(at) = key_position(combined, processes, 0) {
        found_position(combined, processes, 0);
        let value = completed_processes(combined[at].1);
        assert(completed(Tree::Mapping(combined))->Mapping_0 == with_entry(
            combined,
            processes,
            value,
        ));
        other_entries_stay(combined, processes, value, key);
    }
}

proof fn variables_from_are_merged(
    existing: Seq<(Tree, Tree)>,
    overlay: Seq<(Tree, Tree)>,
    from: int,
    name: Tree,
)
    requires
        0 <= from <= overlay.len(),
        forall|i: int| from <= i < overlay.len() ==> (#[trigger] overlay[i]).0 != name,
    ensures
        value_at(merged_variables(existing, overlay, from), name) == value_at(existing, name),
    decreases overlay.len() - from,
{
    if from < overlay.len() {
        let other = overlay[from].0;
        let value = overlay[from].1;
        let set = if value.is_null() {
            Tree::Null
        } else {
            match value_at(existing, other) {
                Some(current) => merged(current, value),
                None => value,
            }
        };
        other_entries_stay(existing, other, set, name);
        variables_from_are_merged(with_entry(existing, other, set), overlay, from + 1, name);
    }
}

proof fn variable_is_set(
    existing: Seq<(Tree, Tree)>,
    overlay: Seq<(Tree, Tree)>,
    from: int,
    at: int,
)
    requires
        0 <= from <= at < overlay.len(),
        distinct_keys(overlay),
        overlay[at].1 is Text || overlay[at].1 is Null,
    ensures
        value_at(merged_variables(existing, overlay, from), overlay[at].0) == Some(overlay[at].1),
    decreases at - from,
{
    let name = overlay[from].0;
    let value = overlay[from].1;
    let set = if value.is_null() {
        Tree::Null
    } else {
        match value_at(existing, name) {
            Some(current) => merged(current, value),
            None => value,
        }
    };
    if from < at {
        variable_is_set(with_entry(existing, name, set), overlay, from + 1, at);
    } else {
        set_entry_is_read_back(existing, name, set);
        assert forall|i: int| from + 1 <= i < overlay.len() implies (#[trigger] overlay[i]).0
            != name by {
            assert(overlay[at].0 != overlay[i].0);
        }
        variables_from_are_merged(with_entry(existing, name, set), overlay, from + 1, name);
    }
}

/// Over the variables of an environment a layer sets those that it names, keeps
/// null as the mark of a removal, and leaves the others alone.
pub proof fn layered_variables_win(
    existing: Seq<(Tree, Tree)>,
    overlay: Seq<(Tree, Tree)>,
    name: Tree,
)
    requires
        distinct_keys(overlay),
        value_at(overlay, name) matches Some(value) ==> value is Text || value is Null,
    ensures
        merged_environment(Some(Tree::Mapping(existing)), overlay) matches Tree::Mapping(variables)
            && value_at(variables, name) == (match value_at(overlay, name) {
            Some(value) => Some(value),
            None => value_at(existing, name),
        }),
        merged_environment(None, overlay) == Tree::Mapping(overlay),
{
    if value_at(overlay, name) is Some {
        let at = found_value(overlay, name);
        variable_is_set(existing, overlay, 0, at);
    } else {
        absent_value(overlay, name);
        variables_from_are_merged(existing, overlay, 0, name);
    }
}

} // verus!
