//! What a Process of the configuration says is what the loaded Process does.

use vstd::prelude::*;

#[allow(unused_imports)]
use super::command::{command_reading, exit_codes_reading, items_option, terminal_reading};
#[allow(unused_imports)]
use super::env::{environment_reading, files_keep_order, inline_entries, inline_entries_win, Entries};
#[allow(unused_imports)]
use super::file::{ProcessFile, RestartFile, SettingsFile};
#[allow(unused_imports)]
use super::order::{entry_of, keys_of, ordered};
#[allow(unused_imports)]
use super::paths::{resolved, FileFacts};
#[allow(unused_imports)]
use super::process::{
    condition_spelled, dependencies_reading, input_option, kind_reading, mode_option,
    restart_reading, shell_reading, spec_reading, tree_option,
};
#[allow(unused_imports)]
use super::readiness::{duration_reading, PlaceView};
#[allow(unused_imports)]
use super::readiness_laws::{
    all_as_given, commands_are_as_given, liveness_is_as_given, readiness_is_as_given,
    resolved_commands_keep_their_words,
};
#[allow(unused_imports)]
use crate::duration::Duration;
#[allow(unused_imports)]
use crate::model::{
    Autostart, CommandView, DependencyCondition, Enabled, InputPolicy, ProcessKind, ProcessView,
    RestartConfig, RestartPolicy, ShellView, TerminalMode,
};
#[allow(unused_imports)]
use crate::scan::option_view;
#[allow(unused_imports)]
use crate::text::texts;
#[allow(unused_imports)]
use crate::yaml::{tree_items, Tree, Yaml};

verus! {

/// Whether a restart policy is what a restart block gives: each setting that it
/// has, and where it has none, no automatic restart, a wait of two seconds, five
/// retries, and no restart of an unhealthy Service.
pub open spec fn restarts_as_given(restart: RestartConfig, file: RestartFile) -> bool {
    &&& match file.on_unhealthy {
        Some(given) => restart.on_unhealthy == given,
        None => !restart.on_unhealthy,
    }
    &&& match file.max_restarts {
        Some(given) => restart.max_restarts == given,
        None => restart.max_restarts == 5,
    }
    &&& match file.policy {
        Some(given) => {
            &&& restart.policy == RestartPolicy::Never <==> given@ == "never"@
            &&& restart.policy == RestartPolicy::OnFailure <==> given@ == "on_failure"@
            &&& restart.policy == RestartPolicy::Always <==> given@ == "always"@
        },
        None => restart.policy == RestartPolicy::Never,
    }
    &&& match file.backoff {
        Some(given) => duration_reading(given@) == Ok::<Duration, Seq<char>>(restart.backoff)
            && restart.backoff.total_nanos() > 0,
        None => restart.backoff.total_nanos() == 2_000_000_000,
    }
}

/// Every setting of a restart block that is accepted is the setting of the
/// loaded policy, a missing one has its default, and a block is refused only
/// for an unknown policy or a wait that is no positive span of time.
pub proof fn given_restart_settings_are_used(name: Seq<char>, file: RestartFile)
    ensures
        match restart_reading(name, Some(file)) {
            Ok(restart) => restarts_as_given(restart, file),
            Err(_) => {
                ||| file.policy matches Some(given) && given@ != "never"@ && given@
                    != "on_failure"@ && given@ != "always"@
                ||| file.backoff matches Some(given) && (duration_reading(given@) matches Ok(wait)
                    ==> wait.total_nanos() == 0)
            },
        },
{
    reveal_strlit("never");
    reveal_strlit("on_failure");
    reveal_strlit("always");
    assert("never"@.len() == 5);
    assert("on_failure"@.len() == 10);
    assert("always"@.len() == 6);
}

/// A Process without a restart block never restarts by itself.
pub proof fn no_restart_block_never_restarts(name: Seq<char>)
    ensures
        restart_reading(name, None) matches Ok(restart) && restart.policy == RestartPolicy::Never
            && !restart.on_unhealthy,
{
}

/// A Process is a One-shot exactly where it says `one-shot`, a Service where it
/// says `service` or nothing, and nothing else is accepted.
pub proof fn kinds_are_as_given(kind: Option<Seq<char>>)
    ensures
        kind_reading(kind) == Ok::<ProcessKind, Seq<char>>(ProcessKind::OneShot) <==> kind == Some(
            "one-shot"@,
        ),
        kind_reading(kind) == Ok::<ProcessKind, Seq<char>>(ProcessKind::Service) <==> (kind is None
            || kind == Some("service"@)),
{
    reveal_strlit("service");
    reveal_strlit("one-shot");
    assert("service"@.len() == 7);
    assert("one-shot"@.len() == 8);
}

/// A terminal is a PTY unless it says `pipe`; a PTY takes input unless it says
/// `disabled`, and a pipe does not unless it says `focused`.
pub proof fn terminals_are_as_given(mode: Option<Seq<char>>, input: Option<Seq<char>>)
    ensures
        terminal_reading(mode, input) matches Ok((kind, policy)) ==> {
            &&& kind == TerminalMode::Pipe <==> mode == Some("pipe"@)
            &&& policy == InputPolicy::Focused <==> (input == Some("focused"@) || (input is None
                && mode != Some("pipe"@)))
        },
        terminal_reading(mode, input) is Ok <==> (mode is None || mode == Some("pty"@) || mode
            == Some("pipe"@)) && (input is None || input == Some("focused"@) || input == Some(
            "disabled"@,
        )),
{
    reveal_strlit("pty");
    reveal_strlit("pipe");
    reveal_strlit("focused");
    reveal_strlit("disabled");
    assert("pty"@.len() == 3);
    assert("pipe"@.len() == 4);
    assert("focused"@.len() == 7);
    assert("disabled"@.len() == 8);
}

/// Whether a condition is spelled by a text.
pub open spec fn spells(text: Seq<char>, condition: DependencyCondition) -> bool {
    match condition {
        DependencyCondition::Started => text == "started"@,
        DependencyCondition::Ready => text == "ready"@,
        DependencyCondition::Exited => text == "exited"@,
        DependencyCondition::CompletedSuccessfully => text == "completed_successfully"@,
    }
}

/// A condition is known exactly by its spelling.
pub proof fn conditions_are_as_spelled(text: Seq<char>, condition: DependencyCondition)
    ensures
        condition_spelled(text) == Some(condition) <==> spells(text, condition),
        condition.spelling() == text <==> spells(text, condition),
{
    reveal_strlit("started");
    reveal_strlit("ready");
    reveal_strlit("exited");
    reveal_strlit("completed_successfully");
    assert("started"@.len() == 7);
    assert("ready"@.len() == 5);
    assert("exited"@.len() == 6);
    assert("completed_successfully"@.len() == 22);
}

/// Whether Dependencies are the entries of a block, in their order: each key
/// with the condition that its value spells.
pub open spec fn depends_as_given(
    dependencies: Seq<(Seq<char>, DependencyCondition)>,
    entries: Seq<(String, Option<Yaml>)>,
) -> bool {
    &&& dependencies.len() == entries.len()
    &&& forall|i: int|
        #![trigger dependencies[i]]
        0 <= i < entries.len() ==> {
            &&& dependencies[i].0 == entries[i].0@
            &&& entries[i].1 matches Some(value) && value@.as_text() matches Some(text) && spells(
                text,
                dependencies[i].1,
            )
        }
}

proof fn read_dependencies_are_as_given(
    name: Seq<char>,
    entries: Seq<(String, Option<Yaml>)>,
    count: int,
)
    requires
        0 <= count <= entries.len(),
    ensures
        dependencies_reading(name, entries, count) matches Ok(dependencies) ==> depends_as_given(
            dependencies,
            entries.take(count),
        ),
    decreases count,
{
    if count > 0 {
        read_dependencies_are_as_given(name, entries, count - 1);
        if let Some(value) = entries[count - 1].1 {
            if let Some(text) = value@.as_text() {
                conditions_are_as_spelled(text, DependencyCondition::Started);
                conditions_are_as_spelled(text, DependencyCondition::Ready);
                conditions_are_as_spelled(text, DependencyCondition::Exited);
                conditions_are_as_spelled(text, DependencyCondition::CompletedSuccessfully);
            }
        }
    }
}

/// Accepted Dependencies are the entries of their block, in order.
pub proof fn dependencies_are_as_given(name: Seq<char>, entries: Seq<(String, Option<Yaml>)>)
    ensures
        dependencies_reading(name, entries, entries.len() as int) matches Ok(dependencies)
            ==> depends_as_given(dependencies, entries),
{
    read_dependencies_are_as_given(name, entries, entries.len() as int);
    assert(entries.take(entries.len() as int) =~= entries);
}

/// A loaded Process has the settings that its file gives: none is dropped,
/// swapped or made up.
pub proof fn loaded_processes_are_as_given(
    process: ProcessFile,
    name: Seq<char>,
    base: Seq<char>,
    project: Entries,
    facts: FileFacts,
)
    ensures
        spec_reading(process, name, base, project, facts) matches Ok(loaded) ==> {
            &&& loaded.name == name
            &&& loaded.kind == ProcessKind::OneShot <==> (process.kind matches Some(kind) && kind@
                == "one-shot"@)
            &&& loaded.enabled == Enabled::No <==> process.enabled == Some(false)
            &&& loaded.autostart == Autostart::No <==> process.autostart == Some(false)
            &&& process.restart matches Some(file) ==> restarts_as_given(loaded.restart, file)
            &&& process.restart is None ==> loaded.restart.policy == RestartPolicy::Never
                && !loaded.restart.on_unhealthy
            &&& depends_as_given(loaded.dependencies, process.depends_on@)
            &&& loaded.readiness is Some <==> process.ready is Some
            &&& loaded.liveness is Some <==> process.liveness is Some
            &&& process.cwd is None ==> loaded.working_dir == base
            &&& process.success_exit_codes matches Some(codes) ==> loaded.success_exit_codes
                == codes@
            &&& process.success_exit_codes is None ==> loaded.success_exit_codes == seq![0i32]
            &&& process.shell matches Some(text) ==> loaded.command == (CommandView::Shell {
                text: text@,
            })
            &&& process.shell is None ==> process.command is Some && loaded.command is Direct
            &&& loaded.terminal_mode == TerminalMode::Pipe <==> (process.terminal matches Some(
                terminal,
            ) && terminal.mode matches Some(mode) && mode@ == "pipe"@)
        },
{
    if let Some(file) = process.restart {
        given_restart_settings_are_used(name, file);
    }
    kinds_are_as_given(option_view(process.kind));
    terminals_are_as_given(mode_option(process), input_option(process));
    dependencies_are_as_given(name, process.depends_on@);
}

/// A loaded Process is checked as its blocks say.
pub proof fn loaded_checks_are_as_given(
    process: ProcessFile,
    name: Seq<char>,
    base: Seq<char>,
    project: Entries,
    facts: FileFacts,
)
    ensures
        spec_reading(process, name, base, project, facts) matches Ok(loaded) ==> {
            &&& process.ready matches Some(file) ==> (loaded.readiness matches Some(readiness)
                && all_as_given(readiness.checks, file) && (readiness.startup_timeout is Some
                <==> file.startup_timeout is Some))
            &&& process.liveness matches Some(file) ==> (loaded.liveness matches Some(checks)
                && all_as_given(checks, file))
        },
{
    if let Some(file) = process.ready {
        readiness_is_as_given(
            PlaceView { process: name, block: "ready"@, child: None },
            file,
            base,
            facts,
        );
    }
    if let Some(file) = process.liveness {
        liveness_is_as_given(
            PlaceView { process: name, block: "liveness"@, child: None },
            file,
            base,
            facts,
        );
    }
}

/// A loaded Process runs the words of its command, in order; only a program
/// that is a path is resolved, against the base Project directory.
pub proof fn loaded_commands_are_as_given(
    process: ProcessFile,
    name: Seq<char>,
    base: Seq<char>,
    project: Entries,
    facts: FileFacts,
)
    ensures
        spec_reading(process, name, base, project, facts) matches Ok(loaded) ==> match (
            process.command,
            loaded.command,
        ) {
            (Some(items), CommandView::Direct { program, args }) => {
                &&& process.shell is None
                &&& items@.len() == args.len() + 1
                &&& items@[0]@.as_text() matches Some(word) && program == (if word.contains('/') {
                    resolved(base, word)
                } else {
                    word
                })
                &&& forall|i: int|
                    0 <= i < args.len() ==> items@[i + 1]@.as_text() == Some(#[trigger] args[i])
            },
            (None, CommandView::Shell { text }) => process.shell matches Some(given) && given@
                == text,
            _ => false,
        },
{
    let command = items_option(process.command);
    let shell = option_view(process.shell);
    commands_are_as_given(command, shell);
    if let Ok(form) = command_reading(command, shell) {
        resolved_commands_keep_their_words(form, base, "command"@, facts);
        if let Some(items) = process.command {
            assert(forall|i: int|
                0 <= i < items@.len() ==> #[trigger] tree_items(items@)[i] == items@[i]@);
            if let CommandView::Direct { args, .. } = form {
                assert forall|i: int| 0 <= i < args.len() implies items@[i + 1]@.as_text() == Some(
                    #[trigger] args[i],
                ) by {
                    assert(tree_items(items@)[i + 1].as_text() == Some(args[i]));
                }
            }
        }
    }
}

/// A loaded Process runs in the directory that its file names, which is there.
pub proof fn loaded_directories_are_as_given(
    process: ProcessFile,
    name: Seq<char>,
    base: Seq<char>,
    project: Entries,
    facts: FileFacts,
)
    ensures
        spec_reading(process, name, base, project, facts) matches Ok(loaded) ==> match process.cwd {
            Some(directory) => loaded.working_dir == resolved(base, directory@)
                && facts.known_directory(loaded.working_dir),
            None => loaded.working_dir == base,
        },
{
}

/// An inline variable of a loaded Process has the value that its last entry
/// gives, and null removes it from what the Process inherits.
pub proof fn loaded_variables_are_as_given(
    process: ProcessFile,
    name: Seq<char>,
    base: Seq<char>,
    project: Entries,
    facts: FileFacts,
    at: int,
)
    requires
        ordered(keys_of(project)),
        0 <= at < process.environment@.len(),
        forall|i: int|
            at < i < process.environment@.len() ==> (#[trigger] process.environment@[i]).0@
                != process.environment@[at].0@,
    ensures
        spec_reading(process, name, base, project, facts) matches Ok(loaded) ==> match process.environment@[at].1 {
            Some(value) => {
                &&& loaded.env.contains((process.environment@[at].0@, value@))
                &&& !loaded.env_remove.contains(process.environment@[at].0@)
            },
            None => {
                &&& !keys_of(loaded.env).contains(process.environment@[at].0@)
                &&& loaded.env_remove.contains(process.environment@[at].0@)
            },
        },
{
    let files = texts(process.env_files@);
    let inline = inline_entries(process.environment@);
    let owner = "Process '"@ + name + "'"@;
    files_keep_order(base, files, 0, owner, facts, project);
    if let Ok(values) = super::env::files_reading(base, files, 0, owner, facts, project) {
        assert forall|i: int| at < i < inline.len() implies (#[trigger] inline[i]).0
            != inline[at].0 by {
            assert(process.environment@[i].0@ != process.environment@[at].0@);
        }
        inline_entries_win(inline, values, at);
        let whole = super::env::with_inline(inline, 0, values, Seq::empty()).0;
        let key = inline[at].0;
        super::env::inline_variables_stay_ordered(inline, values);
        super::order::entries_are_found(whole, key);
    }
}

/// What runs shell expressions is the program and the arguments of the
/// settings, and `/bin/sh -c` without them.
pub proof fn shells_are_as_given(settings: Option<SettingsFile>)
    ensures
        shell_reading(settings) matches Ok(shell) ==> match settings {
            Some(SettingsFile { shell: Some(file), .. }) => {
                &&& file.program matches Some(program) && shell.program == program@
                &&& match file.args {
                    Some(args) => shell.args == texts(args@) && args@.len() > 0,
                    None => shell.args == seq!["-c"@],
                }
            },
            _ => shell.program == "/bin/sh"@ && shell.args == seq!["-c"@],
        },
{
}

} // verus!
