//! Environment shapes, checked before a document is read into typed form, so
//! that diagnostics do not echo a malformed environment value.

use vstd::prelude::*;

use super::error::ConfigError;
use crate::text::{concat5, concat7};
use crate::yaml::{entry_value, Yaml};

#[allow(unused_imports)]
use crate::yaml::{mapping_tree, sequence_tree, tree_entries, tree_items, value_at, Tree};

verus! {

/// What stands for a key that is no text.
pub open spec fn shown_key(key: Tree) -> Seq<char> {
    match key.as_text() {
        Some(name) => name,
        None => "<non-string>"@,
    }
}

/// The first variable from `from` on that is neither a text nor null.
pub open spec fn variables_fault(
    variables: Seq<(Tree, Tree)>,
    from: int,
    process: Seq<char>,
    source: Seq<char>,
) -> Option<Seq<char>>
    decreases variables.len() - from,
{
    if from < 0 || from >= variables.len() {
        None
    } else if !variables[from].1.is_null() && variables[from].1.as_text() is None {
        Some(
            "Process '"@ + process + "': "@ + source + " environment variable '"@ + shown_key(
                variables[from].0,
            ) + "' must be a string or null"@,
        )
    } else {
        variables_fault(variables, from + 1, process, source)
    }
}

/// Why the environment of a mapping cannot be read.
pub open spec fn environment_fault(
    entries: Seq<(Tree, Tree)>,
    process: Seq<char>,
    source: Seq<char>,
) -> Option<Seq<char>> {
    match value_at(entries, Tree::Text("environment"@)) {
        None => None,
        Some(Tree::Mapping(variables)) => variables_fault(variables, 0, process, source),
        Some(Tree::Null) => None,
        Some(_) => Some(
            "Process '"@ + process + "': "@ + source + " environment must be a mapping"@,
        ),
    }
}

/// Why an environment anywhere in a value cannot be read.
pub open spec fn values_fault(value: Tree, process: Seq<char>, source: Seq<char>) -> Option<Seq<char>>
    decreases value, 0int,
{
    match value {
        Tree::Mapping(entries) => match environment_fault(entries, process, source) {
            Some(fault) => Some(fault),
            None => entries_fault(entries, 0, process, source),
        },
        Tree::Sequence(items) => items_fault(items, 0, process, source),
        _ => None,
    }
}

/// Why an environment among the values of entries cannot be read.
pub open spec fn entries_fault(
    entries: Seq<(Tree, Tree)>,
    from: int,
    process: Seq<char>,
    source: Seq<char>,
) -> Option<Seq<char>>
    decreases entries, entries.len() - from,
{
    if from < 0 || from >= entries.len() {
        None
    } else {
        match values_fault(entries[from].1, process, source) {
            Some(fault) => Some(fault),
            None => entries_fault(entries, from + 1, process, source),
        }
    }
}

/// Why an environment among items cannot be read.
pub open spec fn items_fault(
    items: Seq<Tree>,
    from: int,
    process: Seq<char>,
    source: Seq<char>,
) -> Option<Seq<char>>
    decreases items, items.len() - from,
{
    if from < 0 || from >= items.len() {
        None
    } else {
        match values_fault(items[from], process, source) {
            Some(fault) => Some(fault),
            None => items_fault(items, from + 1, process, source),
        }
    }
}

/// Why an environment of Processes cannot be read.
pub open spec fn processes_fault(
    processes: Seq<(Tree, Tree)>,
    from: int,
    source: Seq<char>,
) -> Option<Seq<char>>
    decreases processes.len() - from,
{
    if from < 0 || from >= processes.len() {
        None
    } else {
        match processes[from].0.as_text() {
            None => processes_fault(processes, from + 1, source),
            Some(name) => match values_fault(processes[from].1, name, source) {
                Some(fault) => Some(fault),
                None => processes_fault(processes, from + 1, source),
            },
        }
    }
}

/// Why an environment of name-keyed Processes cannot be read.
pub open spec fn overrides_fault(processes: Tree, source: Seq<char>) -> Option<Seq<char>> {
    match processes.as_mapping() {
        Some(entries) => processes_fault(entries, 0, source),
        None => None,
    }
}

/// Why an environment of a document cannot be read.
pub open spec fn shapes_fault(document: Tree, source: Seq<char>) -> Option<Seq<char>> {
    match document.field("processes"@) {
        Some(processes) => overrides_fault(processes, source),
        None => None,
    }
}

/// Whether nothing is wrong, or what is.
pub open spec fn fault_of(result: Result<(), ConfigError>) -> Option<Seq<char>> {
    match result {
        Ok(_) => None,
        Err(error) => Some(error.message@),
    }
}

fn validate_variables(variables: &Vec<(Yaml, Yaml)>, process: &str, source: &str) -> (r: Result<
    (),
    ConfigError,
>)
    ensures
        fault_of(r) == variables_fault(tree_entries(variables@), 0, process@, source@),
{
    let ghost all = tree_entries(variables@);
    let mut index: usize = 0;
    while index < variables.len()
        invariant
            all == tree_entries(variables@),
            index <= variables.len(),
            variables_fault(all, 0, process@, source@) == variables_fault(
                all,
                index as int,
                process@,
                source@,
            ),
        decreases variables.len() - index,
    {
        proof {
            assert(all[index as int] == (
                variables@[index as int].0@,
                variables@[index as int].1@,
            ));
        }
        let value = &variables[index].1;
        if !value.is_null() && value.as_text().is_none() {
            let name = match variables[index].0.as_text() {
                Some(name) => name.as_str(),
                None => "<non-string>",
            };
            return Err(
                ConfigError {
                    message: concat7(
                        "Process '",
                        process,
                        "': ",
                        source,
                        " environment variable '",
                        name,
                        "' must be a string or null",
                    ),
                },
            );
        }
        index = index + 1;
    }
    Ok(())
}

fn validate_environment(entries: &Vec<(Yaml, Yaml)>, process: &str, source: &str) -> (r: Result<
    (),
    ConfigError,
>)
    ensures
        fault_of(r) == environment_fault(tree_entries(entries@), process@, source@),
{
    match entry_value(entries, "environment") {
        None => Ok(()),
        Some(Yaml::Mapping(variables)) => {
            proof {
                mapping_tree(*variables);
            }
            validate_variables(variables, process, source)
        },
        Some(Yaml::Null) => Ok(()),
        Some(_) => Err(
            ConfigError {
                message: concat5(
                    "Process '",
                    process,
                    "': ",
                    source,
                    " environment must be a mapping",
                ),
            },
        ),
    }
}

fn validate_values(value: &Yaml, process: &str, source: &str) -> (r: Result<(), ConfigError>)
    ensures
        fault_of(r) == values_fault(value@, process@, source@),
    decreases value,
{
    match value {
        Yaml::Mapping(entries) => {
            proof {
                mapping_tree(*entries);
            }
            if let Err(error) = validate_environment(entries, process, source) {
                return Err(error);
            }
            validate_entries(entries, process, source)
        },
        Yaml::Sequence(items) => {
            proof {
                sequence_tree(*items);
            }
            validate_items(items, process, source)
        },
        _ => Ok(()),
    }
}

fn validate_entries(entries: &Vec<(Yaml, Yaml)>, process: &str, source: &str) -> (r: Result<
    (),
    ConfigError,
>)
    ensures
        fault_of(r) == entries_fault(tree_entries(entries@), 0, process@, source@),
    decreases entries,
{
    let ghost all = tree_entries(entries@);
    let mut index: usize = 0;
    while index < entries.len()
        invariant
            all == tree_entries(entries@),
            index <= entries.len(),
            entries_fault(all, 0, process@, source@) == entries_fault(
                all,
                index as int,
                process@,
                source@,
            ),
        decreases entries.len() - index,
    {
        proof {
            assert(all[index as int] == (entries@[index as int].0@, entries@[index as int].1@));
        }
        if let Err(error) = validate_values(&entries[index].1, process, source) {
            return Err(error);
        }
        index = index + 1;
    }
    Ok(())
}

fn validate_items(items: &Vec<Yaml>, process: &str, source: &str) -> (r: Result<(), ConfigError>)
    ensures
        fault_of(r) == items_fault(tree_items(items@), 0, process@, source@),
    decreases items,
{
    let ghost all = tree_items(items@);
    let mut index: usize = 0;
    while index < items.len()
        invariant
            all == tree_items(items@),
            index <= items.len(),
            items_fault(all, 0, process@, source@) == items_fault(
                all,
                index as int,
                process@,
                source@,
            ),
        decreases items.len() - index,
    {
        proof {
            assert(all[index as int] == items@[index as int]@);
        }
        if let Err(error) = validate_values(&items[index], process, source) {
            return Err(error);
        }
        index = index + 1;
    }
    Ok(())
}

fn validate_processes(processes: &Vec<(Yaml, Yaml)>, source: &str) -> (r: Result<(), ConfigError>)
    ensures
        fault_of(r) == processes_fault(tree_entries(processes@), 0, source@),
{
    let ghost all = tree_entries(processes@);
    let mut index: usize = 0;
    while index < processes.len()
        invariant
            all == tree_entries(processes@),
            index <= processes.len(),
            processes_fault(all, 0, source@) == processes_fault(all, index as int, source@),
        decreases processes.len() - index,
    {
        proof {
            assert(all[index as int] == (
                processes@[index as int].0@,
                processes@[index as int].1@,
            ));
        }
        if let Some(name) = processes[index].0.as_text() {
            if let Err(error) = validate_values(&processes[index].1, name.as_str(), source) {
                return Err(error);
            }
        }
        index = index + 1;
    }
    Ok(())
}

/// Validate environment maps before typed deserialization.
pub fn validate_shapes(document: &Yaml, source: &str) -> (r: Result<(), ConfigError>)
    ensures
        fault_of(r) == shapes_fault(document@, source@),
{
    match document.field("processes") {
        Some(processes) => validate_process_overrides(processes, source),
        None => Ok(()),
    }
}

/// Validate a name-keyed Process mapping from a profile or local override.
pub fn validate_process_overrides(processes: &Yaml, source: &str) -> (r: Result<(), ConfigError>)
    ensures
        fault_of(r) == overrides_fault(processes@, source@),
{
    match processes.as_mapping() {
        Some(entries) => validate_processes(entries, source),
        None => Ok(()),
    }
}

} // verus!
