//! One Process of the configuration becomes one Process of the Project model.

use vstd::prelude::*;

use super::command::{
    build_command_form, build_success_exit_codes, build_terminal_settings, resolve_direct_program,
};
use super::env::build_process_environment;
use super::error::ConfigError;
use super::file::{ProcessFile, RestartFile, SettingsFile};
use super::paths::{resolve_directory, FileFacts};
use super::readiness::{build_liveness, build_readiness, parse_duration};
use crate::duration::Duration;
use crate::model::{
    Autostart, CommandForm, DependencyCondition, DependencySpec, Enabled, LivenessConfig,
    ProcessKind, ProcessSpec, ReadinessConfig, RestartConfig, RestartPolicy, ShellConfig,
};
use crate::scan::{is_blank, Blank};
use crate::text::{concat3, concat4, decimal_usize, same_text};
use crate::yaml::Yaml;

#[allow(unused_imports)]
use super::command::{
    codes_option, command_reading, exit_codes_reading, items_option, resolved_command,
    terminal_reading,
};
#[allow(unused_imports)]
use super::env::{environment_reading, inline_entries, Entries};
#[allow(unused_imports)]
use super::paths::directory_reading;
#[allow(unused_imports)]
use super::readiness::{
    duration_reading, liveness_reading, plain_result, readiness_reading, PlaceView,
};
#[allow(unused_imports)]
use crate::model::{
    dependency_views, CheckView, CommandView, ProcessView, ReadinessView, ShellView,
};
#[allow(unused_imports)]
use crate::scan::{option_view, trimmed};
#[allow(unused_imports)]
use crate::text::{decimal_text, pairs, texts};
#[allow(unused_imports)]
use crate::yaml::Tree;

verus! {

/// A failure of one Process.
pub open spec fn process_message(name: Seq<char>, detail: Seq<char>) -> Seq<char> {
    "Process '"@ + name + "': "@ + detail
}

fn process_error(name: &str, detail: &str) -> (r: ConfigError)
    ensures
        r.message@ == process_message(name@, detail@),
{
    ConfigError { message: concat4("Process '", name, "': ", detail) }
}

/// The launcher of shell expressions.
pub open spec fn shell_reading(settings: Option<SettingsFile>) -> Result<ShellView, Seq<char>> {
    match settings {
        None => Ok(ShellConfig::standard()),
        Some(settings) => match settings.shell {
            None => Ok(ShellConfig::standard()),
            Some(shell) => match shell.program {
                None => Err("settings.shell.program is required"@),
                Some(program) => if trimmed(program@, Blank::White).len() == 0 {
                    Err("settings.shell.program must not be empty"@)
                } else {
                    match shell.args {
                        None => Ok(ShellView { program: program@, args: seq!["-c"@] }),
                        Some(args) => if args@.len() == 0 {
                            Err(
                                "settings.shell.args must contain the arguments needed to evaluate a shell expression"@,
                            )
                        } else {
                            Ok(ShellView { program: program@, args: texts(args@) })
                        },
                    }
                },
            },
        },
    }
}

/// The launcher of shell expressions.
pub fn build_shell(settings: &Option<SettingsFile>) -> (r: Result<ShellConfig, ConfigError>)
    ensures
        (match r {
            Ok(shell) => Ok(shell@),
            Err(error) => Err(error.message@),
        }) == shell_reading(*settings),
{
    let shell = match settings {
        None => {
            return Ok(ShellConfig::default());
        },
        Some(settings) => match &settings.shell {
            None => {
                return Ok(ShellConfig::default());
            },
            Some(shell) => shell,
        },
    };
    let program = match &shell.program {
        None => {
            return Err(
                ConfigError { message: "settings.shell.program is required".to_owned() },
            );
        },
        Some(program) => program,
    };
    if is_blank(program.as_str()) {
        return Err(
            ConfigError { message: "settings.shell.program must not be empty".to_owned() },
        );
    }
    let args = match &shell.args {
        None => {
            let mut args: Vec<String> = Vec::new();
            args.push("-c".to_owned());
            proof {
                assert(texts(args@) =~= seq!["-c"@]);
            }
            args
        },
        Some(args) => {
            if args.len() == 0 {
                return Err(
                    ConfigError {
                        message:
                            "settings.shell.args must contain the arguments needed to evaluate a shell expression".to_owned(),
                    },
                );
            }
            copy_texts(args)
        },
    };
    Ok(ShellConfig { program: program.clone(), args })
}

/// A copy of texts in the same order.
pub fn copy_texts(values: &Vec<String>) -> (r: Vec<String>)
    ensures
        texts(r@) == texts(values@),
{
    let mut copy: Vec<String> = Vec::new();
    let mut index: usize = 0;
    while index < values.len()
        invariant
            index <= values.len(),
            copy.len() == index,
            forall|i: int| 0 <= i < index ==> (#[trigger] copy@[i])@ == values@[i]@,
        decreases values.len() - index,
    {
        copy.push(values[index].clone());
        index = index + 1;
    }
    proof {
        assert(texts(copy@) =~= texts(values@));
    }
    copy
}

/// The policy of a restart block.
pub open spec fn policy_reading(name: Seq<char>, policy: Option<Seq<char>>) -> Result<
    RestartPolicy,
    Seq<char>,
> {
    match policy {
        None => Ok(RestartConfig::standard().policy),
        Some(text) => match RestartPolicy::spelled(text) {
            Some(policy) => Ok(policy),
            None => Err(
                process_message(
                    name,
                    "restart.policy must be 'never', 'on_failure', or 'always', got '"@ + text
                        + "'"@,
                ),
            ),
        },
    }
}

/// The wait of a restart block.
pub open spec fn backoff_reading(name: Seq<char>, backoff: Option<Seq<char>>) -> Result<
    Duration,
    Seq<char>,
> {
    match backoff {
        None => Ok(RestartConfig::standard().backoff),
        Some(text) => match duration_reading(text) {
            Err(detail) => Err(process_message(name, "restart.backoff: "@ + detail)),
            Ok(duration) => if duration.seconds == 0 && duration.nanos == 0 {
                Err(process_message(name, "restart.backoff must be greater than zero"@))
            } else {
                Ok(duration)
            },
        },
    }
}

/// A number, or its default.
pub open spec fn or_else<T>(value: Option<T>, default: T) -> T {
    match value {
        Some(value) => value,
        None => default,
    }
}

/// The restart policy of a Process.
pub open spec fn restart_reading(name: Seq<char>, file: Option<RestartFile>) -> Result<
    RestartConfig,
    Seq<char>,
> {
    let standard = RestartConfig::standard();
    match file {
        None => Ok(standard),
        Some(file) => match policy_reading(name, option_view(file.policy)) {
            Err(message) => Err(message),
            Ok(policy) => match backoff_reading(name, option_view(file.backoff)) {
                Err(message) => Err(message),
                Ok(backoff) => Ok(
                    RestartConfig {
                        policy,
                        backoff,
                        max_restarts: or_else(file.max_restarts, standard.max_restarts),
                        on_unhealthy: or_else(file.on_unhealthy, standard.on_unhealthy),
                    },
                ),
            },
        },
    }
}

/// The restart policy of a Process.
pub fn build_restart(process_name: &str, file: &Option<RestartFile>) -> (r: Result<
    RestartConfig,
    ConfigError,
>)
    ensures
        plain_result(r) == restart_reading(process_name@, *file),
{
    let defaults = RestartConfig::default();
    let file = match file {
        None => {
            return Ok(defaults);
        },
        Some(file) => file,
    };
    let policy = match &file.policy {
        None => defaults.policy,
        Some(value) => match RestartPolicy::from_label(value.as_str()) {
            Some(policy) => policy,
            None => {
                let detail = concat3(
                    "restart.policy must be 'never', 'on_failure', or 'always', got '",
                    value.as_str(),
                    "'",
                );
                return Err(process_error(process_name, detail.as_str()));
            },
        },
    };
    let backoff = match &file.backoff {
        None => defaults.backoff,
        Some(value) => match parse_duration(value.as_str()) {
            Err(detail) => {
                let whole = crate::text::concat2("restart.backoff: ", detail.as_str());
                return Err(process_error(process_name, whole.as_str()));
            },
            Ok(duration) => {
                if duration.is_zero() {
                    return Err(
                        process_error(
                            process_name,
                            "restart.backoff must be greater than zero",
                        ),
                    );
                }
                duration
            },
        },
    };
    let max_restarts: u32 = match file.max_restarts {
        Some(count) => count,
        None => defaults.max_restarts,
    };
    let on_unhealthy = match file.on_unhealthy {
        Some(flag) => flag,
        None => defaults.on_unhealthy,
    };
    Ok(RestartConfig { policy, backoff, max_restarts, on_unhealthy })
}

/// The kind of a Process.
pub open spec fn kind_reading(kind: Option<Seq<char>>) -> Result<ProcessKind, Seq<char>> {
    match kind {
        None => Ok(ProcessKind::Service),
        Some(text) => if text == "service"@ {
            Ok(ProcessKind::Service)
        } else if text == "one-shot"@ {
            Ok(ProcessKind::OneShot)
        } else {
            Err("invalid kind '"@ + text + "' (use 'service' or 'one-shot')"@)
        },
    }
}

fn build_kind(kind: &Option<String>) -> (r: Result<ProcessKind, String>)
    ensures
        (match r {
            Ok(kind) => Ok(kind),
            Err(detail) => Err(detail@),
        }) == kind_reading(option_view(*kind)),
{
    match kind {
        None => Ok(ProcessKind::Service),
        Some(text) => {
            if same_text(text.as_str(), "service") {
                Ok(ProcessKind::Service)
            } else if same_text(text.as_str(), "one-shot") {
                Ok(ProcessKind::OneShot)
            } else {
                Err(
                    concat3(
                        "invalid kind '",
                        text.as_str(),
                        "' (use 'service' or 'one-shot')",
                    ),
                )
            }
        },
    }
}

/// The condition with a configuration spelling.
pub open spec fn condition_spelled(text: Seq<char>) -> Option<DependencyCondition> {
    if text == "started"@ {
        Some(DependencyCondition::Started)
    } else if text == "ready"@ {
        Some(DependencyCondition::Ready)
    } else if text == "exited"@ {
        Some(DependencyCondition::Exited)
    } else if text == "completed_successfully"@ {
        Some(DependencyCondition::CompletedSuccessfully)
    } else {
        None
    }
}

/// A failure of one Dependency.
pub open spec fn dependency_message(name: Seq<char>, index: int, detail: Seq<char>) -> Seq<char> {
    process_message(
        name,
        "invalid depends_on entry "@ + decimal_text(index as nat) + ": "@ + detail,
    )
}

/// An optional value as mathematical values.
pub open spec fn tree_option(value: Option<Yaml>) -> Option<Tree> {
    match value {
        Some(value) => Some(value@),
        None => None,
    }
}

/// One Dependency: its name is the key and its condition the value.
pub open spec fn dependency_reading(
    name: Seq<char>,
    index: int,
    key: Seq<char>,
    value: Option<Tree>,
) -> Result<(Seq<char>, DependencyCondition), Seq<char>> {
    let text = match value {
        Some(value) => value.as_text(),
        None => None,
    };
    match text {
        None => Err(
            dependency_message(
                name,
                index,
                "condition for Dependency '"@ + key
                    + "' must be a string; use 'dependency-name: condition'"@,
            ),
        ),
        Some(text) => match condition_spelled(text) {
            Some(condition) => Ok((key, condition)),
            None => Err(
                dependency_message(
                    name,
                    index,
                    "unsupported condition '"@ + text
                        + "' (this Stackhand supports 'started', 'ready', 'exited', and 'completed_successfully')"@,
                ),
            ),
        },
    }
}

fn dependency_error(process_name: &str, index: usize, detail: &str) -> (r: ConfigError)
    ensures
        r.message@ == dependency_message(process_name@, index as int, detail@),
{
    let shown = decimal_usize(index);
    let whole = concat4("invalid depends_on entry ", shown.as_str(), ": ", detail);
    process_error(process_name, whole.as_str())
}

/// One canonical `depends_on` entry. Kind honesty is enforced later against
/// the full Process list: a One-shot dependency supports `exited` and
/// `completed_successfully`, a Service dependency supports `ready`.
pub fn build_dependency(process_name: &str, index: usize, key: &str, value: &Option<Yaml>) -> (r:
    Result<DependencySpec, ConfigError>)
    ensures
        (match r {
            Ok(dependency) => Ok(dependency@),
            Err(error) => Err(error.message@),
        }) == dependency_reading(process_name@, index as int, key@, tree_option(*value)),
{
    let text = match value {
        Some(value) => value.as_text(),
        None => None,
    };
    let text = match text {
        Some(text) => text.as_str(),
        None => {
            let detail = concat3(
                "condition for Dependency '",
                key,
                "' must be a string; use 'dependency-name: condition'",
            );
            return Err(dependency_error(process_name, index, detail.as_str()));
        },
    };
    let condition = if same_text(text, "started") {
        DependencyCondition::Started
    } else if same_text(text, "ready") {
        DependencyCondition::Ready
    } else if same_text(text, "exited") {
        DependencyCondition::Exited
    } else if same_text(text, "completed_successfully") {
        DependencyCondition::CompletedSuccessfully
    } else {
        let detail = concat3(
            "unsupported condition '",
            text,
            "' (this Stackhand supports 'started', 'ready', 'exited', and 'completed_successfully')",
        );
        return Err(dependency_error(process_name, index, detail.as_str()));
    };
    Ok(DependencySpec { name: key.to_owned(), condition })
}

/// The first `count` Dependencies.
pub open spec fn dependencies_reading(
    name: Seq<char>,
    entries: Seq<(String, Option<Yaml>)>,
    count: int,
) -> Result<Seq<(Seq<char>, DependencyCondition)>, Seq<char>>
    decreases count,
{
    if count <= 0 || count > entries.len() {
        Ok(Seq::empty())
    } else {
        match dependencies_reading(name, entries, count - 1) {
            Err(message) => Err(message),
            Ok(before) => match dependency_reading(
                name,
                count - 1,
                entries[count - 1].0@,
                tree_option(entries[count - 1].1),
            ) {
                Err(message) => Err(message),
                Ok(dependency) => Ok(before.push(dependency)),
            },
        }
    }
}

proof fn early_dependency_failure(
    name: Seq<char>,
    entries: Seq<(String, Option<Yaml>)>,
    at: int,
    end: int,
)
    requires
        0 < at <= end <= entries.len(),
        dependencies_reading(name, entries, at) is Err,
    ensures
        dependencies_reading(name, entries, end) == dependencies_reading(name, entries, at),
    decreases end - at,
{
    if at < end {
        early_dependency_failure(name, entries, at, end - 1);
    }
}

fn build_dependencies(process_name: &str, entries: &Vec<(String, Option<Yaml>)>) -> (r: Result<
    Vec<DependencySpec>,
    ConfigError,
>)
    ensures
        (match r {
            Ok(dependencies) => Ok(dependency_views(dependencies@)),
            Err(error) => Err(error.message@),
        }) == dependencies_reading(process_name@, entries@, entries@.len() as int),
{
    let mut dependencies: Vec<DependencySpec> = Vec::new();
    let mut index: usize = 0;
    proof {
        assert(dependency_views(dependencies@) =~= Seq::<(Seq<char>, DependencyCondition)>::empty());
    }
    while index < entries.len()
        invariant
            index <= entries.len(),
            dependencies_reading(process_name@, entries@, index as int) == Ok::<
                Seq<(Seq<char>, DependencyCondition)>,
                Seq<char>,
            >(dependency_views(dependencies@)),
        decreases entries.len() - index,
    {
        let ghost before = dependency_views(dependencies@);
        match build_dependency(
            process_name,
            index,
            entries[index].0.as_str(),
            &entries[index].1,
        ) {
            Ok(dependency) => {
                let ghost view = dependency@;
                dependencies.push(dependency);
                proof {
                    assert(dependency_views(dependencies@) =~= before.push(view));
                }
            },
            Err(error) => {
                proof {
                    early_dependency_failure(
                        process_name@,
                        entries@,
                        index + 1,
                        entries@.len() as int,
                    );
                }
                return Err(error);
            },
        }
        index = index + 1;
    }
    Ok(dependencies)
}

/// The mode of optional terminal settings.
pub open spec fn mode_option(process: ProcessFile) -> Option<Seq<char>> {
    match process.terminal {
        Some(terminal) => option_view(terminal.mode),
        None => None,
    }
}

/// The input of optional terminal settings.
pub open spec fn input_option(process: ProcessFile) -> Option<Seq<char>> {
    match process.terminal {
        Some(terminal) => option_view(terminal.input),
        None => None,
    }
}

/// The command of a Process, with its program resolved.
pub open spec fn process_command(
    process: ProcessFile,
    name: Seq<char>,
    base: Seq<char>,
    facts: FileFacts,
) -> Result<CommandView, Seq<char>> {
    match command_reading(items_option(process.command), option_view(process.shell)) {
        Err(detail) => Err(process_message(name, detail)),
        Ok(command) => match resolved_command(command, base, "command"@, facts) {
            Err(detail) => Err(process_message(name, detail)),
            Ok(command) => Ok(command),
        },
    }
}

/// The working directory of a Process; the base Project directory without one.
pub open spec fn process_directory(
    process: ProcessFile,
    name: Seq<char>,
    base: Seq<char>,
    facts: FileFacts,
) -> Result<Seq<char>, Seq<char>> {
    match process.cwd {
        None => Ok(base),
        Some(directory) => match directory_reading(
            base,
            directory@,
            "working directory"@,
            facts,
        ) {
            Err(detail) => Err(process_message(name, detail)),
            Ok(path) => Ok(path),
        },
    }
}

/// The readiness policy of a Process, if it has one.
pub open spec fn process_readiness(
    process: ProcessFile,
    name: Seq<char>,
    base: Seq<char>,
    facts: FileFacts,
) -> Result<Option<ReadinessView>, Seq<char>> {
    match process.ready {
        None => Ok(None),
        Some(file) => match readiness_reading(
            PlaceView { process: name, block: "ready"@, child: None },
            file,
            base,
            facts,
        ) {
            Err(message) => Err(message),
            Ok(readiness) => Ok(Some(readiness)),
        },
    }
}

/// The liveness policy of a Process, if it has one.
pub open spec fn process_liveness(
    process: ProcessFile,
    name: Seq<char>,
    base: Seq<char>,
    facts: FileFacts,
) -> Result<Option<Seq<CheckView>>, Seq<char>> {
    match process.liveness {
        None => Ok(None),
        Some(file) => match liveness_reading(
            PlaceView { process: name, block: "liveness"@, child: None },
            file,
            base,
            facts,
        ) {
            Err(message) => Err(message),
            Ok(liveness) => Ok(Some(liveness)),
        },
    }
}

/// A detail as a failure of the Process.
pub open spec fn of_process<T>(name: Seq<char>, result: Result<T, Seq<char>>) -> Result<
    T,
    Seq<char>,
> {
    match result {
        Ok(value) => Ok(value),
        Err(detail) => Err(process_message(name, detail)),
    }
}

/// One Process as it will actually run. What is wrong is told in the order of
/// the fields.
pub open spec fn spec_reading(
    process: ProcessFile,
    name: Seq<char>,
    base: Seq<char>,
    project: Entries,
    facts: FileFacts,
) -> Result<ProcessView, Seq<char>> {
    let kind = of_process(name, kind_reading(option_view(process.kind)));
    let command = process_command(process, name, base, facts);
    let directory = process_directory(process, name, base, facts);
    let terminal = of_process(
        name,
        terminal_reading(mode_option(process), input_option(process)),
    );
    let dependencies = dependencies_reading(
        name,
        process.depends_on@,
        process.depends_on@.len() as int,
    );
    let readiness = process_readiness(process, name, base, facts);
    let liveness = process_liveness(process, name, base, facts);
    let codes = of_process(name, exit_codes_reading(codes_option(process.success_exit_codes)));
    let restart = restart_reading(name, process.restart);
    let environment = environment_reading(
        texts(process.env_files@),
        inline_entries(process.environment@),
        name,
        base,
        project,
        facts,
    );
    if kind is Err {
        Err(kind->Err_0)
    } else if command is Err {
        Err(command->Err_0)
    } else if directory is Err {
        Err(directory->Err_0)
    } else if terminal is Err {
        Err(terminal->Err_0)
    } else if dependencies is Err {
        Err(dependencies->Err_0)
    } else if readiness is Err {
        Err(readiness->Err_0)
    } else if liveness is Err {
        Err(liveness->Err_0)
    } else if codes is Err {
        Err(codes->Err_0)
    } else if restart is Err {
        Err(restart->Err_0)
    } else if environment is Err {
        Err(environment->Err_0)
    } else {
        Ok(
            ProcessView {
                name: name,
                kind: kind->Ok_0,
                enabled: if or_else(process.enabled, true) {
                    Enabled::Yes
                } else {
                    Enabled::No
                },
                autostart: if or_else(process.autostart, true) {
                    Autostart::Yes
                } else {
                    Autostart::No
                },
                success_exit_codes: codes->Ok_0,
                command: command->Ok_0,
                working_dir: directory->Ok_0,
                env: (environment->Ok_0).0,
                env_remove: (environment->Ok_0).1,
                terminal_mode: (terminal->Ok_0).0,
                input_policy: (terminal->Ok_0).1,
                dependencies: dependencies->Ok_0,
                readiness: readiness->Ok_0,
                liveness: liveness->Ok_0,
                restart: restart->Ok_0,
            },
        )
    }
}

fn build_command(process: &ProcessFile, name: &str, base_dir: &str, facts: &FileFacts) -> (r: Result<
    CommandForm,
    ConfigError,
>)
    ensures
        (match r {
            Ok(command) => Ok(command@),
            Err(error) => Err(error.message@),
        }) == process_command(*process, name@, base_dir@, *facts),
{
    let command = match build_command_form(&process.command, &process.shell) {
        Ok(command) => command,
        Err(detail) => {
            return Err(process_error(name, detail.as_str()));
        },
    };
    match resolve_direct_program(command, base_dir, "command", facts) {
        Ok(command) => Ok(command),
        Err(detail) => Err(process_error(name, detail.as_str())),
    }
}

fn build_directory(process: &ProcessFile, name: &str, base_dir: &str, facts: &FileFacts) -> (r:
    Result<String, ConfigError>)
    ensures
        (match r {
            Ok(path) => Ok(path@),
            Err(error) => Err(error.message@),
        }) == process_directory(*process, name@, base_dir@, *facts),
{
    match &process.cwd {
        None => Ok(base_dir.to_owned()),
        Some(directory) => match resolve_directory(
            base_dir,
            directory.as_str(),
            "working directory",
            facts,
        ) {
            Ok(path) => Ok(path),
            Err(detail) => Err(process_error(name, detail.as_str())),
        },
    }
}

fn build_terminal(process: &ProcessFile, name: &str) -> (r: Result<
    (crate::model::TerminalMode, crate::model::InputPolicy),
    ConfigError,
>)
    ensures
        plain_result(r) == of_process(
            name@,
            terminal_reading(mode_option(*process), input_option(*process)),
        ),
{
    let none: Option<String> = None;
    let settings = match &process.terminal {
        Some(terminal) => build_terminal_settings(&terminal.mode, &terminal.input),
        None => build_terminal_settings(&none, &none),
    };
    match settings {
        Ok(settings) => Ok(settings),
        Err(detail) => Err(process_error(name, detail.as_str())),
    }
}

fn build_process_readiness(
    process: &ProcessFile,
    name: &str,
    base_dir: &str,
    facts: &FileFacts,
) -> (r: Result<Option<ReadinessConfig>, ConfigError>)
    ensures
        (match r {
            Ok(Some(readiness)) => Ok(Some(readiness@)),
            Ok(None) => Ok(None),
            Err(error) => Err(error.message@),
        }) == process_readiness(*process, name@, base_dir@, *facts),
{
    match &process.ready {
        None => Ok(None),
        Some(file) => match build_readiness(name, file, base_dir, facts) {
            Ok(readiness) => Ok(Some(readiness)),
            Err(error) => Err(error),
        },
    }
}

fn build_process_liveness(
    process: &ProcessFile,
    name: &str,
    base_dir: &str,
    facts: &FileFacts,
) -> (r: Result<Option<LivenessConfig>, ConfigError>)
    ensures
        (match r {
            Ok(Some(liveness)) => Ok(Some(liveness@)),
            Ok(None) => Ok(None),
            Err(error) => Err(error.message@),
        }) == process_liveness(*process, name@, base_dir@, *facts),
{
    match &process.liveness {
        None => Ok(None),
        Some(file) => match build_liveness(name, file, base_dir, facts) {
            Ok(liveness) => Ok(Some(liveness)),
            Err(error) => Err(error),
        },
    }
}

/// A Process or a failure as mathematical values.
pub open spec fn spec_result(result: Result<ProcessSpec, ConfigError>) -> Result<
    ProcessView,
    Seq<char>,
> {
    match result {
        Ok(spec) => Ok(spec@),
        Err(error) => Err(error.message@),
    }
}

/// One Process as it will actually run.
pub fn build_spec(
    process: &ProcessFile,
    name: &str,
    base_dir: &str,
    project_environment: &Vec<(String, String)>,
    facts: &FileFacts,
) -> (r: Result<ProcessSpec, ConfigError>)
    ensures
        spec_result(r) == spec_reading(
            *process,
            name@,
            base_dir@,
            pairs(project_environment@),
            *facts,
        ),
{
    let kind = match build_kind(&process.kind) {
        Ok(kind) => kind,
        Err(detail) => {
            return Err(process_error(name, detail.as_str()));
        },
    };
    let command = match build_command(process, name, base_dir, facts) {
        Ok(command) => command,
        Err(error) => {
            return Err(error);
        },
    };
    let working_dir = match build_directory(process, name, base_dir, facts) {
        Ok(path) => path,
        Err(error) => {
            return Err(error);
        },
    };
    let (terminal_mode, input_policy) = match build_terminal(process, name) {
        Ok(settings) => settings,
        Err(error) => {
            return Err(error);
        },
    };
    let dependencies = match build_dependencies(name, &process.depends_on) {
        Ok(dependencies) => dependencies,
        Err(error) => {
            return Err(error);
        },
    };
    let readiness = match build_process_readiness(process, name, base_dir, facts) {
        Ok(readiness) => readiness,
        Err(error) => {
            return Err(error);
        },
    };
    let liveness = match build_process_liveness(process, name, base_dir, facts) {
        Ok(liveness) => liveness,
        Err(error) => {
            return Err(error);
        },
    };
    let success_exit_codes = match build_success_exit_codes(&process.success_exit_codes) {
        Ok(codes) => codes,
        Err(detail) => {
            return Err(process_error(name, detail.as_str()));
        },
    };
    let restart = match build_restart(name, &process.restart) {
        Ok(restart) => restart,
        Err(error) => {
            return Err(error);
        },
    };
    let environment = match build_process_environment(
        &process.env_files,
        &process.environment,
        name,
        base_dir,
        project_environment,
        facts,
    ) {
        Ok(environment) => environment,
        Err(error) => {
            return Err(error);
        },
    };
    let enabled = match process.enabled {
        Some(flag) => flag,
        None => true,
    };
    let autostart = match process.autostart {
        Some(flag) => flag,
        None => true,
    };
    Ok(
        ProcessSpec {
            name: name.to_owned(),
            kind,
            enabled: Enabled::flag(enabled),
            autostart: Autostart::flag(autostart),
            success_exit_codes,
            command,
            working_dir,
            env: environment.values,
            env_remove: environment.removals,
            terminal_mode,
            input_policy,
            dependencies,
            readiness,
            liveness,
            restart,
        },
    )
}

} // verus!
