//! What is shown of a Project, and what is told of a file that is wrong.

use vstd::prelude::*;

#[allow(unused_imports)]
use super::command::{mode_reading, terminal_reading};
#[allow(unused_imports)]
use super::diagnostics::{
    base_fault, duplicate_hint, exec_place, field_place, hinted, local_fault, merged_fault,
    process_place, replacement_hint, FaultView,
};
#[allow(unused_imports)]
use super::document::parsed_yaml;
#[allow(unused_imports)]
use super::env::Entries;
#[allow(unused_imports)]
use super::file::ProcessFile;
#[allow(unused_imports)]
use super::layers::{
    base_document_fault, base_layer, base_reading, local_layer, local_reading, raw_process,
    version_reading,
};
#[allow(unused_imports)]
use super::load::{base_in, located, opened, RequestView};
#[allow(unused_imports)]
use super::paths::{
    content_from, is_absolute, normalized, path_names, resolved, FileContent, FileFacts,
};
#[allow(unused_imports)]
use super::process::{kind_reading, spec_reading};
#[allow(unused_imports)]
use super::profile::{null_process, other_entries_stay, overridden, set_entry_is_read_back};
#[allow(unused_imports)]
use super::readiness::duration_reading;
#[allow(unused_imports)]
use super::shapes::{entries_fault, environment_fault, values_fault, variables_fault};
#[allow(unused_imports)]
use super::show::{
    canonical, check_entries, command_entry, dependency_entries, duration_text,
    environment_tree, number_tree, policy_entries, process_entries, process_tree, readiness_tree,
    restart_tree, terminal_tree,
};
#[allow(unused_imports)]
use crate::model::{
    Autostart, CheckView, CommandView, DependencyCondition, Enabled, InputPolicy, ProbeView,
    ProcessKind, ProcessView, ReadinessView, RestartConfig, RestartPolicy, ShellView,
    TerminalMode,
};
#[allow(unused_imports)]
use crate::scan::{begins, holds, option_view};
#[allow(unused_imports)]
use crate::text::{decimal_text, word_at};
#[allow(unused_imports)]
use crate::yaml::{found_position, value_at, Tree};

verus! {

/// Whether a mapping holds a value under a key.
pub open spec fn shows(tree: Tree, key: Seq<char>, value: Tree) -> bool {
    tree matches Tree::Mapping(entries) && entries.contains((Tree::Text(key), value))
}

proof fn shown_at(entries: Seq<(Tree, Tree)>, at: int, key: Seq<char>, value: Tree)
    requires
        0 <= at < entries.len(),
        entries[at] == (Tree::Text(key), value),
    ensures
        shows(Tree::Mapping(entries), key, value),
{
}

/// The terminal that is shown is read back as it was.
pub proof fn shown_terminals_are_read_back(mode: TerminalMode, input: InputPolicy)
    ensures
        exists|shown_mode: Seq<char>, shown_input: Seq<char>|
            {
                &&& #[trigger] shows(terminal_tree(mode, input), "mode"@, Tree::Text(shown_mode))
                &&& #[trigger] shows(terminal_tree(mode, input), "input"@, Tree::Text(shown_input))
                &&& terminal_reading(Some(shown_mode), Some(shown_input)) == Ok::<
                    (TerminalMode, InputPolicy),
                    Seq<char>,
                >((mode, input))
            },
{
    reveal_strlit("pty");
    reveal_strlit("pipe");
    reveal_strlit("disabled");
    reveal_strlit("focused");
    let shown_mode = match mode {
        TerminalMode::Pipe => "pipe"@,
        TerminalMode::Pty => "pty"@,
    };
    let shown_input = match input {
        InputPolicy::Disabled => "disabled"@,
        InputPolicy::Focused => "focused"@,
    };
    assert("pipe"@.len() == 4 && "pty"@.len() == 3);
    assert("disabled"@.len() == 8 && "focused"@.len() == 7);
    let entries = terminal_tree(mode, input)->Mapping_0;
    shown_at(entries, 0, "mode"@, Tree::Text(shown_mode));
    shown_at(entries, 1, "input"@, Tree::Text(shown_input));
    assert(terminal_reading(Some(shown_mode), Some(shown_input)) == Ok::<
        (TerminalMode, InputPolicy),
        Seq<char>,
    >((mode, input)));
}

/// The restart settings are shown as they are, each under its name.
pub proof fn restart_settings_are_shown(restart: RestartConfig)
    ensures
        ({
            let tree = restart_tree(restart);
            &&& exists|policy: Seq<char>| #[trigger]
                shows(tree, "policy"@, Tree::Text(policy)) && RestartPolicy::spelled(policy)
                    == Some(restart.policy)
            &&& shows(tree, "backoff"@, Tree::Text(duration_text(restart.backoff)))
            &&& shows(tree, "max_restarts"@, Tree::Unsigned(restart.max_restarts as u64))
            &&& shows(tree, "on_unhealthy"@, Tree::Bool(restart.on_unhealthy))
        }),
{
    let entries = restart_tree(restart)->Mapping_0;
    crate::model::restart_policy_spelling_round_trip(restart.policy, restart.policy.spelling());
    shown_at(entries, 0, "policy"@, Tree::Text(restart.policy.spelling()));
    shown_at(entries, 1, "backoff"@, Tree::Text(duration_text(restart.backoff)));
    shown_at(entries, 2, "max_restarts"@, Tree::Unsigned(restart.max_restarts as u64));
    shown_at(entries, 3, "on_unhealthy"@, Tree::Bool(restart.on_unhealthy));
}

/// The settings of a Process are shown as they are, each under its name.
pub proof fn process_settings_are_shown(process: ProcessView)
    ensures
        ({
            let tree = process_tree(process);
            &&& process.kind == ProcessKind::Service ==> shows(
                tree,
                "kind"@,
                Tree::Text("service"@),
            )
            &&& process.kind == ProcessKind::OneShot ==> shows(
                tree,
                "kind"@,
                Tree::Text("one-shot"@),
            )
            &&& shows(tree, "enabled"@, Tree::Bool(process.enabled == Enabled::Yes))
            &&& shows(tree, "autostart"@, Tree::Bool(process.autostart == Autostart::Yes))
            &&& shows(tree, "cwd"@, Tree::Text(process.working_dir))
            &&& shows(tree, "environment"@, environment_tree(process.env, process.env_remove))
            &&& shows(tree, "terminal"@, terminal_tree(process.terminal_mode, process.input_policy))
            &&& shows(tree, "restart"@, restart_tree(process.restart))
            &&& process.readiness matches Some(readiness) ==> shows(
                tree,
                "ready"@,
                readiness_tree(readiness),
            )
            &&& process.liveness matches Some(checks) ==> shows(
                tree,
                "liveness"@,
                Tree::Mapping(policy_entries(checks)),
            )
            &&& process.command matches CommandView::Shell { text } ==> shows(
                tree,
                "shell"@,
                Tree::Text(text),
            )
            &&& process.command matches CommandView::Direct { program, args } ==> exists|
                words: Seq<Tree>,
            |
                {
                    &&& #[trigger] shows(tree, "command"@, Tree::Sequence(words))
                    &&& words.len() == args.len() + 1
                    &&& words[0] == Tree::Text(program)
                    &&& forall|i: int|
                        0 <= i < args.len() ==> #[trigger] words[i + 1] == Tree::Text(args[i])
                }
        }),
{
    let entries = process_tree(process)->Mapping_0;
    let dependencies: int = if process.dependencies.len() == 0 {
        0
    } else {
        1
    };
    let ready: int = if process.readiness is Some {
        1
    } else {
        0
    };
    let liveness: int = if process.liveness is Some {
        1
    } else {
        0
    };
    shown_at(entries, 0, "kind"@, entries[0].1);
    shown_at(entries, 1, "enabled"@, entries[1].1);
    shown_at(entries, 2, "autostart"@, entries[2].1);
    shown_at(entries, 3, "cwd"@, entries[3].1);
    shown_at(entries, 4, "environment"@, entries[4].1);
    shown_at(entries, 5, "terminal"@, entries[5].1);
    if let Some(readiness) = process.readiness {
        shown_at(entries, 7 + dependencies, "ready"@, readiness_tree(readiness));
    }
    if let Some(checks) = process.liveness {
        shown_at(
            entries,
            7 + dependencies + ready,
            "liveness"@,
            Tree::Mapping(policy_entries(checks)),
        );
    }
    let last = 7 + dependencies + ready + liveness;
    shown_at(entries, last, "restart"@, restart_tree(process.restart));
    assert(entries[last + 1] == command_entry(process.command));
    match process.command {
        CommandView::Shell { text } => {
            shown_at(entries, last + 1, "shell"@, Tree::Text(text));
        },
        CommandView::Direct { program, args } => {
            let words = entries[last + 1].1->Sequence_0;
            shown_at(entries, last + 1, "command"@, Tree::Sequence(words));
            assert(words[0] == Tree::Text(program));
            assert forall|i: int| 0 <= i < args.len() implies #[trigger] words[i + 1]
                == Tree::Text(args[i]) by {
                assert((seq![program] + args)[i + 1] == args[i]);
            }
        },
    }
}

/// The settings of a check are shown as they are, each under its name.
pub proof fn check_settings_are_shown(check: CheckView)
    ensures
        ({
            let tree = Tree::Mapping(check_entries(check));
            &&& shows(tree, "initial_delay"@, Tree::Text(duration_text(check.initial_delay)))
            &&& shows(tree, "interval"@, Tree::Text(duration_text(check.interval)))
            &&& shows(tree, "timeout"@, Tree::Text(duration_text(check.timeout)))
            &&& shows(
                tree,
                "success_threshold"@,
                Tree::Unsigned(check.success_threshold as u64),
            )
            &&& shows(
                tree,
                "failure_threshold"@,
                Tree::Unsigned(check.failure_threshold as u64),
            )
            &&& check.probe matches ProbeView::Tcp { host, port } ==> exists|target: Tree|
                {
                    &&& #[trigger] shows(tree, "tcp"@, target)
                    &&& shows(target, "host"@, Tree::Text(host))
                    &&& shows(target, "port"@, Tree::Unsigned(port as u64))
                }
            &&& check.probe matches ProbeView::Log { contains } ==> exists|target: Tree|
                {
                    &&& #[trigger] shows(tree, "log"@, target)
                    &&& shows(target, "contains"@, Tree::Text(contains))
                }
        }),
{
    let entries = check_entries(check);
    shown_at(entries, 1, "initial_delay"@, entries[1].1);
    shown_at(entries, 2, "interval"@, entries[2].1);
    shown_at(entries, 3, "timeout"@, entries[3].1);
    shown_at(entries, 4, "success_threshold"@, entries[4].1);
    shown_at(entries, 5, "failure_threshold"@, entries[5].1);
    if check.probe is Tcp {
        let target = entries[0].1->Mapping_0;
        shown_at(entries, 0, "tcp"@, entries[0].1);
        shown_at(target, 0, "host"@, target[0].1);
        shown_at(target, 1, "port"@, target[1].1);
    }
    if check.probe is Log {
        let target = entries[0].1->Mapping_0;
        shown_at(entries, 0, "log"@, entries[0].1);
        shown_at(target, 0, "contains"@, target[0].1);
    }
}

proof fn first_dependencies_are_shown(
    dependencies: Seq<(Seq<char>, DependencyCondition)>,
    count: int,
    at: int,
)
    requires
        0 <= at < count <= dependencies.len(),
        forall|i: int, j: int|
            0 <= i < j < dependencies.len() ==> (#[trigger] dependencies[i]).0 != (
            #[trigger] dependencies[j]).0,
    ensures
        value_at(dependency_entries(dependencies, count), Tree::Text(dependencies[at].0)) == Some(
            Tree::Text(dependencies[at].1.spelling()),
        ),
    decreases count,
{
    let before = dependency_entries(dependencies, count - 1);
    let key = Tree::Text(dependencies[count - 1].0);
    let value = Tree::Text(dependencies[count - 1].1.spelling());
    if at == count - 1 {
        set_entry_is_read_back(before, key, value);
    } else {
        assert(dependencies[at].0 != dependencies[count - 1].0);
        other_entries_stay(before, key, value, Tree::Text(dependencies[at].0));
        first_dependencies_are_shown(dependencies, count - 1, at);
    }
}

/// Every dependency of a Process is shown with its condition.
pub proof fn dependencies_are_shown(process: ProcessView, at: int)
    requires
        0 <= at < process.dependencies.len(),
        forall|i: int, j: int|
            0 <= i < j < process.dependencies.len() ==> (#[trigger] process.dependencies[i]).0 != (
            #[trigger] process.dependencies[j]).0,
    ensures
        exists|shown: Tree|
            {
                &&& #[trigger] shows(process_tree(process), "depends_on"@, shown)
                &&& shown.field(process.dependencies[at].0) == Some(
                    Tree::Text(process.dependencies[at].1.spelling()),
                )
            },
{
    let entries = process_tree(process)->Mapping_0;
    first_dependencies_are_shown(process.dependencies, process.dependencies.len() as int, at);
    shown_at(entries, 7, "depends_on"@, entries[7].1);
}

proof fn first_processes_are_shown(processes: Seq<ProcessView>, count: int, at: int)
    requires
        0 <= at < count <= processes.len(),
        forall|i: int, j: int|
            0 <= i < j < processes.len() ==> (#[trigger] processes[i]).name != (
            #[trigger] processes[j]).name,
    ensures
        value_at(process_entries(processes, count), Tree::Text(processes[at].name)) == Some(
            process_tree(processes[at]),
        ),
    decreases count,
{
    let before = process_entries(processes, count - 1);
    let key = Tree::Text(processes[count - 1].name);
    let value = process_tree(processes[count - 1]);
    if at == count - 1 {
        set_entry_is_read_back(before, key, value);
    } else {
        assert(processes[at].name != processes[count - 1].name);
        other_entries_stay(before, key, value, Tree::Text(processes[at].name));
        first_processes_are_shown(processes, count - 1, at);
    }
}

/// A Project is shown with its version, every Process under its name, its
/// shell and whether it looks for ports.
pub proof fn projects_are_shown_whole(
    processes: Seq<ProcessView>,
    base_name: Seq<char>,
    shell: ShellView,
    ports: bool,
    at: int,
)
    requires
        0 <= at < processes.len(),
        forall|i: int, j: int|
            0 <= i < j < processes.len() ==> (#[trigger] processes[i]).name != (
            #[trigger] processes[j]).name,
    ensures
        ({
            let tree = canonical(processes, base_name, shell, ports);
            &&& shows(tree, "version"@, Tree::Unsigned(1))
            &&& base_name != "base"@ ==> shows(tree, "base_profile_name"@, Tree::Text(base_name))
            &&& exists|shown: Tree|
                {
                    &&& #[trigger] shows(tree, "processes"@, shown)
                    &&& shown.field(processes[at].name) == Some(process_tree(processes[at]))
                }
            &&& exists|settings: Tree, launcher: Tree, args: Seq<Tree>|
                {
                    &&& #[trigger] shows(tree, "settings"@, settings)
                    &&& shows(settings, "port_discovery"@, Tree::Bool(ports))
                    &&& #[trigger] shows(settings, "shell"@, launcher)
                    &&& shows(launcher, "program"@, Tree::Text(shell.program))
                    &&& #[trigger] shows(launcher, "args"@, Tree::Sequence(args))
                    &&& args.len() == shell.args.len()
                    &&& forall|i: int|
                        0 <= i < args.len() ==> #[trigger] args[i] == Tree::Text(shell.args[i])
                }
        }),
{
    let entries = canonical(processes, base_name, shell, ports)->Mapping_0;
    let named: int = if base_name == "base"@ {
        0
    } else {
        1
    };
    shown_at(entries, 0, "version"@, Tree::Unsigned(1));
    if named == 1 {
        shown_at(entries, 1, "base_profile_name"@, Tree::Text(base_name));
    }
    first_processes_are_shown(processes, processes.len() as int, at);
    shown_at(entries, 1 + named, "processes"@, entries[1 + named].1);
    let settings = entries[2 + named].1->Mapping_0;
    shown_at(entries, 2 + named, "settings"@, entries[2 + named].1);
    shown_at(settings, 0, "shell"@, settings[0].1);
    shown_at(settings, 1, "port_discovery"@, Tree::Bool(ports));
    let launcher = settings[0].1->Mapping_0;
    shown_at(launcher, 0, "program"@, Tree::Text(shell.program));
    let args = launcher[1].1->Sequence_0;
    shown_at(launcher, 1, "args"@, Tree::Sequence(args));
    assert(args.len() == shell.args.len());
    assert(forall|i: int|
        0 <= i < args.len() ==> #[trigger] args[i] == Tree::Text(shell.args[i]));
}

/// A fault that neither names an unknown field nor a duplicate entry is told
/// as it came, behind the file and the place in it.
pub proof fn faults_tell_their_file_and_place(
    path: Seq<char>,
    message: Seq<char>,
    line: usize,
    column: usize,
)
    requires
        duplicate_hint(message) is None,
        replacement_hint(message) is None,
    ensures
        base_fault(path, FaultView { message, location: Some((line, column)) })
            == "invalid configuration '"@ + path + "'"@ + " at line "@ + decimal_text(line as nat)
            + ", column "@ + decimal_text(column as nat) + ": "@ + message,
        local_fault(path, FaultView { message, location: Some((line, column)) })
            == "invalid local override '"@ + path + "'"@ + " at line "@ + decimal_text(line as nat)
            + ", column "@ + decimal_text(column as nat) + ": "@ + message,
        base_fault(path, FaultView { message, location: None }) == "invalid configuration '"@
            + path + "'"@ + ": "@ + message,
        local_fault(path, FaultView { message, location: None }) == "invalid local override '"@
            + path + "'"@ + ": "@ + message,
{
}

/// Only faults on unknown fields get a replacement, and only faults on
/// duplicate entries are told as duplicate Processes.
pub proof fn other_faults_get_no_hint(message: Seq<char>)
    ensures
        replacement_hint(message) is Some ==> {
            ||| holds(message, "unknown field `readiness`"@)
            ||| holds(message, "unknown field `interval_ms`"@)
            ||| holds(message, "unknown field `timeout_ms`"@)
            ||| holds(message, "unknown field `working_dir`"@)
            ||| holds(message, "unknown field `env`"@)
            ||| holds(message, "unknown field `input`"@)
            ||| holds(message, "unknown field `name`"@)
        },
        duplicate_hint(message) is Some ==> holds(message, "duplicate entry with key"@),
        hinted(message) != message ==> replacement_hint(message) is Some || duplicate_hint(
            message,
        ) is Some,
{
}

/// A document of another version is refused, with the version in the message.
pub proof fn other_versions_are_refused(document: Tree, layer: Seq<char>)
    ensures
        version_reading(document) matches Ok(version) ==> (version != 1 ==> base_document_fault(
            document,
            layer,
        ) == Some(
            "unsupported schema version "@ + decimal_text(version as nat)
                + ": this Stackhand reads version 1"@ + " (source: "@ + layer + ")"@,
        )),
        version_reading(document) is Err ==> base_document_fault(document, layer) is Some,
        document.as_mapping() is None ==> version_reading(document) is Err,
        document.field("version"@) is None ==> version_reading(document) is Err,
{
}

proof fn a_bad_variable_is_found(
    variables: Seq<(Tree, Tree)>,
    from: int,
    process: Seq<char>,
    source: Seq<char>,
    at: int,
)
    requires
        0 <= from <= at < variables.len(),
        !variables[at].1.is_null(),
        variables[at].1.as_text() is None,
    ensures
        variables_fault(variables, from, process, source) is Some,
    decreases at - from,
{
    if from < at {
        a_bad_variable_is_found(variables, from + 1, process, source, at);
    }
}

proof fn good_variables_pass(
    variables: Seq<(Tree, Tree)>,
    from: int,
    process: Seq<char>,
    source: Seq<char>,
)
    requires
        0 <= from,
        forall|i: int|
            0 <= i < variables.len() ==> (#[trigger] variables[i]).1 is Text || variables[i].1 is Null,
    ensures
        variables_fault(variables, from, process, source) is None,
    decreases variables.len() - from,
{
    if from < variables.len() {
        assert(variables[from].1 is Text || variables[from].1 is Null);
        good_variables_pass(variables, from + 1, process, source);
    }
}

/// Variables are texts or null: a Process with any other value is refused, and
/// one whose variables are all texts or null is not, on their account.
pub proof fn variables_are_texts_or_null(
    entries: Seq<(Tree, Tree)>,
    variables: Seq<(Tree, Tree)>,
    process: Seq<char>,
    source: Seq<char>,
)
    requires
        value_at(entries, Tree::Text("environment"@)) == Some(Tree::Mapping(variables)),
    ensures
        (exists|i: int|
            0 <= i < variables.len() && !(#[trigger] variables[i]).1.is_null()
                && variables[i].1.as_text() is None) ==> values_fault(
            Tree::Mapping(entries),
            process,
            source,
        ) is Some,
        (forall|i: int|
            0 <= i < variables.len() ==> (#[trigger] variables[i]).1 is Text
                || variables[i].1 is Null) ==> environment_fault(entries, process, source) is None,
{
    if exists|i: int|
        0 <= i < variables.len() && !(#[trigger] variables[i]).1.is_null()
            && variables[i].1.as_text() is None {
        let at = choose|i: int|
            0 <= i < variables.len() && !(#[trigger] variables[i]).1.is_null()
                && variables[i].1.as_text() is None;
        a_bad_variable_is_found(variables, 0, process, source, at);
    }
    if forall|i: int|
        0 <= i < variables.len() ==> (#[trigger] variables[i]).1 is Text
            || variables[i].1 is Null {
        good_variables_pass(variables, 0, process, source);
    }
}

/// A Project without a local file is the base file alone; with one it is the
/// base file under the local one. Nothing is opened where a file cannot be
/// read.
pub proof fn opened_documents_are_the_files(
    path: Seq<char>,
    base: Result<Seq<char>, Seq<char>>,
    local: Option<(Seq<char>, Result<Seq<char>, Seq<char>>)>,
)
    ensures
        base is Err ==> opened(path, base, local) is Err,
        local matches Some(layer) ==> (layer.1 is Err ==> opened(path, base, local) is Err),
        opened(path, base, local) matches Ok(document) ==> {
            &&& document.path == path
            &&& document.merged == (local is Some)
            &&& document.layer == (match local {
                Some(layer) => "local override '"@ + layer.0 + "'"@,
                None => "base Project '"@ + path + "'"@,
            })
            &&& parsed_yaml(base->Ok_0) is Ok
            &&& local is None ==> document.text == base->Ok_0 && document.tree == parsed_yaml(
                base->Ok_0,
            )->Ok_0
            &&& local matches Some(layer) ==> parsed_yaml(layer.1->Ok_0) is Ok && document.tree
                == overridden(parsed_yaml(base->Ok_0)->Ok_0, parsed_yaml(layer.1->Ok_0)->Ok_0)
        },
{
}

/// Fields that go by another name are told with that name, wherever they stand.
pub proof fn renamed_fields_are_hinted(message: Seq<char>)
    requires
        duplicate_hint(message) is None,
    ensures
        ({
            let ready = holds(message, "unknown field `readiness`"@);
            let interval = holds(message, "unknown field `interval_ms`"@);
            let timeout = holds(message, "unknown field `timeout_ms`"@);
            &&& ready ==> hinted(message) == message + "; "@ + "use `ready` instead"@
            &&& interval && !ready ==> hinted(message) == message + "; "@
                + "use `interval` instead"@
            &&& timeout && !ready && !interval ==> hinted(message) == message + "; "@
                + "use `timeout` instead"@
        }),
{
}

/// Fields of a Process that go by another name or stand elsewhere are told
/// with their place; elsewhere the same words get no hint.
pub proof fn misplaced_fields_are_hinted(message: Seq<char>)
    requires
        duplicate_hint(message) is None,
        !holds(message, "unknown field `readiness`"@),
        !holds(message, "unknown field `interval_ms`"@),
        !holds(message, "unknown field `timeout_ms`"@),
    ensures
        ({
            let place = field_place(message);
            let process = process_place(place);
            let exec = exec_place(place);
            let directory = holds(message, "unknown field `working_dir`"@);
            let environment = holds(message, "unknown field `env`"@);
            let input = holds(message, "unknown field `input`"@);
            let name = holds(message, "unknown field `name`"@);
            &&& directory && (process || exec) ==> hinted(message) == message + "; "@
                + "use `cwd` instead"@
            &&& environment && !directory && (process || exec) ==> hinted(message) == message
                + "; "@ + "use `environment` instead"@
            &&& input && !directory && !environment && process ==> hinted(message) == message
                + "; "@ + "put `input` under the `terminal` mapping instead"@
            &&& name && !input && !directory && !environment && process ==> hinted(message)
                == message + "; "@ + "put the Process name in the `processes` map key instead"@
            &&& !process && !exec ==> hinted(message) == message
        }),
{
}

/// Discovery begins in the directory that is asked for, or else in the current
/// one: a Project that stands there is found.
pub proof fn discovery_starts_where_asked(
    start: Option<Seq<char>>,
    profile: Option<Seq<char>>,
    current_dir: Seq<char>,
    facts: FileFacts,
)
    ensures
        ({
            let directory = match start {
                Some(path) => resolved(current_dir, path),
                None => normalized(current_dir),
            };
            let here = base_in(
                is_absolute(directory),
                path_names(directory),
                path_names(directory).len() as int,
            );
            facts.known_file(here) ==> (located(
                RequestView::Discover { start_dir: start, profile },
                current_dir,
                facts,
            ) matches Ok(sources) && sources.base == here && sources.profile == profile)
        }),
{
    let directory = match start {
        Some(path) => resolved(current_dir, path),
        None => normalized(current_dir),
    };
    let names = path_names(directory);
    assert(names.take(names.len() as int) =~= names);
}

/// Exit codes are shown as they are, in their order.
pub proof fn exit_codes_are_shown(process: ProcessView, at: int)
    requires
        0 <= at < process.success_exit_codes.len(),
    ensures
        exists|codes: Seq<Tree>|
            {
                &&& #[trigger] shows(
                    process_tree(process),
                    "success_exit_codes"@,
                    Tree::Sequence(codes),
                )
                &&& codes.len() == process.success_exit_codes.len()
                &&& process.success_exit_codes[at] >= 0 ==> codes[at] == Tree::Unsigned(
                    process.success_exit_codes[at] as u64,
                )
                &&& process.success_exit_codes[at] < 0 ==> codes[at] == Tree::Negative(
                    process.success_exit_codes[at] as i64,
                )
            },
{
    let entries = process_tree(process)->Mapping_0;
    shown_at(entries, 6, "success_exit_codes"@, entries[6].1);
    let codes = entries[6].1->Sequence_0;
    assert(codes.len() == process.success_exit_codes.len());
    assert(codes[at] == number_tree(process.success_exit_codes[at] as int));
    assert(shows(process_tree(process), "success_exit_codes"@, Tree::Sequence(codes)));
}

proof fn a_null_process_is_found(processes: Seq<(Tree, Tree)>, from: int, at: int)
    requires
        0 <= from <= at < processes.len(),
        processes[at].1.is_null(),
    ensures
        null_process(processes, from) is Some,
    decreases at - from,
{
    if from < at {
        a_null_process_is_found(processes, from + 1, at);
    }
}

/// A local override cannot take a Process away: null in place of one is
/// refused, and so is null in place of all of them.
pub proof fn processes_cannot_be_nulled(
    root: Seq<(Tree, Tree)>,
    processes: Seq<(Tree, Tree)>,
    at: int,
)
    requires
        value_at(root, Tree::Text("processes"@)) == Some(Tree::Mapping(processes)),
        0 <= at < processes.len(),
        processes[at].1.is_null(),
    ensures
        super::profile::local_fault(Tree::Mapping(root)) is Some,
{
    a_null_process_is_found(processes, 0, at);
}

proof fn the_first_content_is_found(
    contents: Seq<(String, FileContent)>,
    path: Seq<char>,
    at: int,
    from: int,
)
    requires
        0 <= from <= at < contents.len(),
        contents[at].0@ == path,
        forall|i: int| from <= i < at ==> (#[trigger] contents[i]).0@ != path,
    ensures
        content_from(contents, path, from) == contents[at].1@,
    decreases at - from,
{
    if from < at {
        assert(contents[from].0@ != path);
        the_first_content_is_found(contents, path, at, from + 1);
    }
}

/// What was read of a file is found under its path.
pub proof fn contents_are_found_by_path(facts: FileFacts, path: Seq<char>, at: int)
    requires
        0 <= at < facts.contents@.len(),
        facts.contents@[at].0@ == path,
        forall|i: int| 0 <= i < at ==> (#[trigger] facts.contents@[i]).0@ != path,
    ensures
        facts.content_of(path) == facts.contents@[at].1@,
{
    the_first_content_is_found(facts.contents@, path, at, 0);
}

/// A Process of an unknown kind is named first in the message.
pub proof fn an_unknown_kind_is_told_of_its_process(
    process: ProcessFile,
    name: Seq<char>,
    base: Seq<char>,
    project: Entries,
    facts: FileFacts,
)
    requires
        kind_reading(option_view(process.kind)) is Err,
    ensures
        spec_reading(process, name, base, project, facts) matches Err(message) && begins(
            message,
            "Process '"@ + name + "': "@,
        ),
{
    let detail = kind_reading(option_view(process.kind))->Err_0;
    let start = "Process '"@ + name + "': "@;
    assert((start + detail).subrange(0, start.len() as int) =~= start);
}

} // verus!
