//! The validated Project as stable canonical YAML, without the values of
//! configured environments.

use vstd::prelude::*;

use super::document::write_yaml;
use super::error::ConfigError;
use crate::duration::Duration;
use crate::model::{
    Autostart, CommandForm, DependencySpec, Enabled, InputPolicy, ProcessKind, ProcessSpec,
    ReadinessCheck, ReadinessConfig, ReadinessProbe, RestartConfig, ShellConfig, TerminalMode,
};
use crate::project::EffectiveProject;
use crate::text::{concat2, concat5, decimal, decimal_u64, same_text};
use crate::yaml::{insert_entry, Yaml};

#[allow(unused_imports)]
use super::command::{all_digits, digits_value, is_digit};
#[allow(unused_imports)]
use super::document::written_yaml;
#[allow(unused_imports)]
use super::order::keys_of;
#[allow(unused_imports)]
use super::presentable::{project_fits, projects_are_writable};
#[allow(unused_imports)]
use super::profile::{other_entries_stay, set_entry_is_read_back};
#[allow(unused_imports)]
use super::readiness::{duration_parts, duration_reading, url_parts, url_reading};
#[allow(unused_imports)]
use crate::model::{
    check_views, dependency_views, process_views, CheckView, CommandView, DependencyCondition,
    ProbeView, ProcessView, ReadinessView, ShellView,
};
#[allow(unused_imports)]
use crate::scan::{after_prefix, holds, last_position, word_position};
#[allow(unused_imports)]
use crate::text::{decimal_text, digit_character, pairs, texts, word_at};
#[allow(unused_imports)]
use crate::yaml::{mapping_tree, sequence_tree, tree_entries, tree_items, value_at, with_entry, Tree};

verus! {

/// What stands for every value of an environment.
pub const REDACTED_VALUE: &'static str = "<redacted>";

/// One entry of a mapping.
pub open spec fn entry(key: Seq<char>, value: Tree) -> (Tree, Tree) {
    (Tree::Text(key), value)
}

/// A number.
pub open spec fn number_tree(value: int) -> Tree {
    if value < 0 {
        Tree::Negative(value as i64)
    } else {
        Tree::Unsigned(value as u64)
    }
}

/// Texts as a sequence.
pub open spec fn texts_tree(values: Seq<Seq<char>>) -> Tree {
    Tree::Sequence(values.map_values(|value: Seq<char>| Tree::Text(value)))
}

/// Exit codes as a sequence.
pub open spec fn codes_tree(codes: Seq<i32>) -> Tree {
    Tree::Sequence(codes.map_values(|code: i32| number_tree(code as int)))
}

/// The largest whole unit in which a span of time is written.
pub open spec fn duration_text(value: Duration) -> Seq<char> {
    let millis = value.total_millis() as nat;
    if millis == 0 {
        "0ms"@
    } else if millis % 3_600_000 == 0 {
        decimal_text(millis / 3_600_000) + "h"@
    } else if millis % 60_000 == 0 {
        decimal_text(millis / 60_000) + "m"@
    } else if millis % 1_000 == 0 {
        decimal_text(millis / 1_000) + "s"@
    } else {
        decimal_text(millis) + "ms"@
    }
}

/// How a span of time is shown.
pub open spec fn duration_tree(value: Duration) -> Tree {
    Tree::Text(duration_text(value))
}

/// The entries of the first `count` variables, their values left out.
pub open spec fn redacted(env: Seq<(Seq<char>, Seq<char>)>, count: int) -> Seq<(Tree, Tree)>
    decreases count,
{
    if count <= 0 || count > env.len() {
        Seq::empty()
    } else {
        with_entry(
            redacted(env, count - 1),
            Tree::Text(env[count - 1].0),
            Tree::Text(REDACTED_VALUE@),
        )
    }
}

/// Entries with the first `count` removed variables.
pub open spec fn with_removed(entries: Seq<(Tree, Tree)>, removed: Seq<Seq<char>>, count: int) -> Seq<
    (Tree, Tree),
>
    decreases count,
{
    if count <= 0 || count > removed.len() {
        entries
    } else {
        with_entry(
            with_removed(entries, removed, count - 1),
            Tree::Text(removed[count - 1]),
            Tree::Null,
        )
    }
}

/// How an environment is shown.
pub open spec fn environment_tree(
    env: Seq<(Seq<char>, Seq<char>)>,
    removed: Seq<Seq<char>>,
) -> Tree {
    Tree::Mapping(with_removed(redacted(env, env.len() as int), removed, removed.len() as int))
}

/// How the terminal of a Process is shown.
pub open spec fn terminal_tree(mode: TerminalMode, input: InputPolicy) -> Tree {
    Tree::Mapping(
        seq![
            entry(
                "mode"@,
                Tree::Text(
                    match mode {
                        TerminalMode::Pipe => "pipe"@,
                        TerminalMode::Pty => "pty"@,
                    },
                ),
            ),
            entry(
                "input"@,
                Tree::Text(
                    match input {
                        InputPolicy::Disabled => "disabled"@,
                        InputPolicy::Focused => "focused"@,
                    },
                ),
            ),
        ],
    )
}

/// The entries of the first `count` Dependencies.
pub open spec fn dependency_entries(
    dependencies: Seq<(Seq<char>, DependencyCondition)>,
    count: int,
) -> Seq<(Tree, Tree)>
    decreases count,
{
    if count <= 0 || count > dependencies.len() {
        Seq::empty()
    } else {
        with_entry(
            dependency_entries(dependencies, count - 1),
            Tree::Text(dependencies[count - 1].0),
            Tree::Text(dependencies[count - 1].1.spelling()),
        )
    }
}

/// The entry of a command.
pub open spec fn command_entry(command: CommandView) -> (Tree, Tree) {
    match command {
        CommandView::Direct { program, args } => entry("command"@, texts_tree(seq![program] + args)),
        CommandView::Shell { text } => entry("shell"@, Tree::Text(text)),
    }
}

/// The block of one probe.
pub open spec fn probe_entry(probe: ProbeView) -> (Tree, Tree) {
    match probe {
        ProbeView::Tcp { host, port } => entry(
            "tcp"@,
            Tree::Mapping(
                seq![
                    entry("host"@, Tree::Text(host)),
                    entry("port"@, number_tree(port as int)),
                ],
            ),
        ),
        ProbeView::Http { host, port, path } => entry(
            "http"@,
            Tree::Mapping(
                seq![
                    entry(
                        "url"@,
                        Tree::Text(
                            "http://"@ + host + ":"@ + decimal_text(port as nat) + path,
                        ),
                    ),
                ],
            ),
        ),
        ProbeView::Exec { command, working_dir, env, success_exit_codes } => {
            let directory = match working_dir {
                Some(path) => seq![entry("cwd"@, Tree::Text(path))],
                None => Seq::empty(),
            };
            let environment = if env.len() == 0 {
                Seq::empty()
            } else {
                seq![entry("environment"@, Tree::Mapping(redacted(env, env.len() as int)))]
            };
            entry(
                "exec"@,
                Tree::Mapping(
                    seq![command_entry(command)] + directory + environment + seq![
                        entry("success_exit_codes"@, codes_tree(success_exit_codes)),
                    ],
                ),
            )
        },
        ProbeView::Log { contains } => entry(
            "log"@,
            Tree::Mapping(seq![entry("contains"@, Tree::Text(contains))]),
        ),
    }
}

/// The entries of one check.
pub open spec fn check_entries(check: CheckView) -> Seq<(Tree, Tree)> {
    seq![
        probe_entry(check.probe),
        entry("initial_delay"@, duration_tree(check.initial_delay)),
        entry("interval"@, duration_tree(check.interval)),
        entry("timeout"@, duration_tree(check.timeout)),
        entry("success_threshold"@, number_tree(check.success_threshold as int)),
        entry("failure_threshold"@, number_tree(check.failure_threshold as int)),
    ]
}

/// The entries of a policy: its one check, or all of them in a list.
pub open spec fn policy_entries(checks: Seq<CheckView>) -> Seq<(Tree, Tree)> {
    if checks.len() == 1 {
        check_entries(checks[0])
    } else {
        seq![
            entry(
                "all"@,
                Tree::Sequence(
                    checks.map_values(|check: CheckView| Tree::Mapping(check_entries(check))),
                ),
            ),
        ]
    }
}

/// How checks are shown.
pub open spec fn readiness_tree(readiness: ReadinessView) -> Tree {
    let deadline = match readiness.startup_timeout {
        Some(timeout) => seq![entry("startup_timeout"@, duration_tree(timeout))],
        None => Seq::empty(),
    };
    Tree::Mapping(policy_entries(readiness.checks) + deadline)
}

/// How a restart policy is shown.
pub open spec fn restart_tree(restart: RestartConfig) -> Tree {
    Tree::Mapping(
        seq![
            entry("policy"@, Tree::Text(restart.policy.spelling())),
            entry("backoff"@, duration_tree(restart.backoff)),
            entry("max_restarts"@, number_tree(restart.max_restarts as int)),
            entry("on_unhealthy"@, Tree::Bool(restart.on_unhealthy)),
        ],
    )
}

/// The block of one Process.
pub open spec fn process_tree(process: ProcessView) -> Tree {
    let first = seq![
        entry(
            "kind"@,
            Tree::Text(
                match process.kind {
                    ProcessKind::Service => "service"@,
                    ProcessKind::OneShot => "one-shot"@,
                },
            ),
        ),
        entry("enabled"@, Tree::Bool(process.enabled == Enabled::Yes)),
        entry("autostart"@, Tree::Bool(process.autostart == Autostart::Yes)),
        entry("cwd"@, Tree::Text(process.working_dir)),
        entry("environment"@, environment_tree(process.env, process.env_remove)),
        entry("terminal"@, terminal_tree(process.terminal_mode, process.input_policy)),
        entry("success_exit_codes"@, codes_tree(process.success_exit_codes)),
    ];
    let dependencies = if process.dependencies.len() == 0 {
        Seq::empty()
    } else {
        seq![
            entry(
                "depends_on"@,
                Tree::Mapping(
                    dependency_entries(process.dependencies, process.dependencies.len() as int),
                ),
            ),
        ]
    };
    let ready = match process.readiness {
        Some(readiness) => seq![entry("ready"@, readiness_tree(readiness))],
        None => Seq::empty(),
    };
    let liveness = match process.liveness {
        Some(checks) => seq![entry("liveness"@, Tree::Mapping(policy_entries(checks)))],
        None => Seq::empty(),
    };
    let last = seq![entry("restart"@, restart_tree(process.restart)), command_entry(process.command)];
    Tree::Mapping(first + dependencies + ready + liveness + last)
}

/// The entries of the first `count` Processes.
pub open spec fn process_entries(processes: Seq<ProcessView>, count: int) -> Seq<(Tree, Tree)>
    decreases count,
{
    if count <= 0 || count > processes.len() {
        Seq::empty()
    } else {
        with_entry(
            process_entries(processes, count - 1),
            Tree::Text(processes[count - 1].name),
            process_tree(processes[count - 1]),
        )
    }
}

/// The whole Project as it is shown.
pub open spec fn canonical(
    processes: Seq<ProcessView>,
    base_name: Seq<char>,
    shell: ShellView,
    ports: bool,
) -> Tree {
    let base = if base_name == "base"@ {
        Seq::empty()
    } else {
        seq![entry("base_profile_name"@, Tree::Text(base_name))]
    };
    let launcher = Tree::Mapping(
        seq![entry("program"@, Tree::Text(shell.program)), entry("args"@, texts_tree(shell.args))],
    );
    Tree::Mapping(
        seq![entry("version"@, number_tree(1))] + base + seq![
            entry(
                "processes"@,
                Tree::Mapping(process_entries(processes, processes.len() as int)),
            ),
            entry(
                "settings"@,
                Tree::Mapping(
                    seq![entry("shell"@, launcher), entry("port_discovery"@, Tree::Bool(ports))],
                ),
            ),
        ],
    )
}

/// Adds an entry whose key is new.
fn field(entries: &mut Vec<(Yaml, Yaml)>, key: &str, value: Yaml)
    ensures
        tree_entries(final(entries)@) == tree_entries(old(entries)@).push(entry(key@, value@)),
{
    let ghost before = tree_entries(entries@);
    entries.push((Yaml::Text(key.to_owned()), value));
    proof {
        assert(tree_entries(entries@) =~= before.push(entry(key@, value@)));
    }
}

fn no_entries() -> (r: Vec<(Yaml, Yaml)>)
    ensures
        tree_entries(r@) == Seq::<(Tree, Tree)>::empty(),
{
    let entries: Vec<(Yaml, Yaml)> = Vec::new();
    proof {
        assert(tree_entries(entries@) =~= Seq::<(Tree, Tree)>::empty());
    }
    entries
}

fn mapping(entries: Vec<(Yaml, Yaml)>) -> (r: Yaml)
    ensures
        r@ == Tree::Mapping(tree_entries(entries@)),
{
    proof {
        mapping_tree(entries);
    }
    Yaml::Mapping(entries)
}

fn text(value: &str) -> (r: Yaml)
    ensures
        r@ == Tree::Text(value@),
{
    Yaml::Text(value.to_owned())
}

fn number(value: i64) -> (r: Yaml)
    ensures
        r@ == number_tree(value as int),
{
    if value < 0 {
        Yaml::Negative(value)
    } else {
        Yaml::Unsigned(value as u64)
    }
}

fn push_texts(items: &mut Vec<Yaml>, values: &Vec<String>)
    ensures
        tree_items(final(items)@) == tree_items(old(items)@) + texts(values@).map_values(
            |value: Seq<char>| Tree::Text(value),
        ),
{
    let ghost start = tree_items(items@);
    let ghost all = texts(values@).map_values(|value: Seq<char>| Tree::Text(value));
    let mut index: usize = 0;
    proof {
        assert(start + all.take(0) =~= start);
    }
    while index < values.len()
        invariant
            index <= values.len(),
            all == texts(values@).map_values(|value: Seq<char>| Tree::Text(value)),
            tree_items(items@) == start + all.take(index as int),
        decreases values.len() - index,
    {
        let ghost before = tree_items(items@);
        let item = text(values[index].as_str());
        items.push(item);
        proof {
            assert(tree_items(items@) =~= before.push(item@));
            assert(start + all.take(index + 1) =~= (start + all.take(index as int)).push(item@));
        }
        index = index + 1;
    }
    proof {
        assert(all.take(index as int) =~= all);
    }
}

fn texts_value(values: &Vec<String>) -> (r: Yaml)
    ensures
        r@ == texts_tree(texts(values@)),
{
    let mut items: Vec<Yaml> = Vec::new();
    proof {
        assert(tree_items(items@) =~= Seq::<Tree>::empty());
    }
    push_texts(&mut items, values);
    proof {
        sequence_tree(items);
        assert(tree_items(items@) =~= texts(values@).map_values(
            |value: Seq<char>| Tree::Text(value),
        ));
    }
    Yaml::Sequence(items)
}

fn codes_value(codes: &Vec<i32>) -> (r: Yaml)
    ensures
        r@ == codes_tree(codes@),
{
    let ghost all = codes@.map_values(|code: i32| number_tree(code as int));
    let mut items: Vec<Yaml> = Vec::new();
    let mut index: usize = 0;
    proof {
        assert(tree_items(items@) =~= all.take(0));
    }
    while index < codes.len()
        invariant
            index <= codes.len(),
            all == codes@.map_values(|code: i32| number_tree(code as int)),
            tree_items(items@) == all.take(index as int),
        decreases codes.len() - index,
    {
        let ghost before = tree_items(items@);
        let item = number(codes[index] as i64);
        items.push(item);
        proof {
            assert(tree_items(items@) =~= before.push(item@));
            assert(all.take(index + 1) =~= all.take(index as int).push(item@));
        }
        index = index + 1;
    }
    proof {
        assert(all.take(index as int) =~= all);
        sequence_tree(items);
    }
    Yaml::Sequence(items)
}

/// A span of time in its largest whole unit.
pub fn duration(value: Duration) -> (r: Yaml)
    ensures
        r@ == duration_tree(value),
{
    let millis: u128 = value.as_millis();
    if millis == 0 {
        return text("0ms");
    }
    let amount: u128 = if millis % 3_600_000 == 0 {
        millis / 3_600_000
    } else if millis % 60_000 == 0 {
        millis / 60_000
    } else if millis % 1_000 == 0 {
        millis / 1_000
    } else {
        millis
    };
    let suffix = if millis % 3_600_000 == 0 {
        "h"
    } else if millis % 60_000 == 0 {
        "m"
    } else if millis % 1_000 == 0 {
        "s"
    } else {
        "ms"
    };
    let digits = decimal(amount);
    Yaml::Text(concat2(digits.as_str(), suffix))
}

fn redacted_entries(env: &Vec<(String, String)>) -> (r: Vec<(Yaml, Yaml)>)
    ensures
        tree_entries(r@) == redacted(pairs(env@), env@.len() as int),
{
    let mut entries = no_entries();
    let mut index: usize = 0;
    while index < env.len()
        invariant
            index <= env.len(),
            tree_entries(entries@) == redacted(pairs(env@), index as int),
        decreases env.len() - index,
    {
        insert_entry(&mut entries, text(env[index].0.as_str()), text(REDACTED_VALUE));
        index = index + 1;
    }
    entries
}

fn process_environment(process: &ProcessSpec) -> (r: Yaml)
    ensures
        r@ == environment_tree(process@.env, process@.env_remove),
{
    let mut entries = redacted_entries(&process.env);
    let ghost start = tree_entries(entries@);
    let mut index: usize = 0;
    while index < process.env_remove.len()
        invariant
            index <= process.env_remove.len(),
            tree_entries(entries@) == with_removed(
                start,
                texts(process.env_remove@),
                index as int,
            ),
        decreases process.env_remove.len() - index,
    {
        insert_entry(&mut entries, text(process.env_remove[index].as_str()), Yaml::Null);
        index = index + 1;
    }
    mapping(entries)
}

fn terminal_value(mode: TerminalMode, input: InputPolicy) -> (r: Yaml)
    ensures
        r@ == terminal_tree(mode, input),
{
    let mut terminal = no_entries();
    field(
        &mut terminal,
        "mode",
        text(
            match mode {
                TerminalMode::Pipe => "pipe",
                TerminalMode::Pty => "pty",
            },
        ),
    );
    field(
        &mut terminal,
        "input",
        text(
            match input {
                InputPolicy::Disabled => "disabled",
                InputPolicy::Focused => "focused",
            },
        ),
    );
    let value = mapping(terminal);
    proof {
        assert(value@->Mapping_0 =~= terminal_tree(mode, input)->Mapping_0);
    }
    value
}

/// Dependencies as a mapping from names to conditions.
pub fn dependencies(entries: &Vec<DependencySpec>) -> (r: Yaml)
    ensures
        r@ == Tree::Mapping(
            dependency_entries(dependency_views(entries@), entries@.len() as int),
        ),
{
    let mut found = no_entries();
    let mut index: usize = 0;
    while index < entries.len()
        invariant
            index <= entries.len(),
            tree_entries(found@) == dependency_entries(dependency_views(entries@), index as int),
        decreases entries.len() - index,
    {
        let condition = entries[index].condition.label();
        insert_entry(&mut found, text(entries[index].name.as_str()), text(condition));
        index = index + 1;
    }
    mapping(found)
}

fn insert_command(entries: &mut Vec<(Yaml, Yaml)>, command: &CommandForm)
    ensures
        tree_entries(final(entries)@) == tree_entries(old(entries)@).push(command_entry(command@)),
{
    match command {
        CommandForm::Direct { program, args } => {
            let mut values: Vec<Yaml> = Vec::new();
            values.push(text(program.as_str()));
            proof {
                assert(tree_items(values@) =~= seq![Tree::Text(program@)]);
            }
            push_texts(&mut values, args);
            proof {
                sequence_tree(values);
                assert(tree_items(values@) =~= (seq![program@] + texts(args@)).map_values(
                    |value: Seq<char>| Tree::Text(value),
                ));
            }
            field(entries, "command", Yaml::Sequence(values));
        },
        CommandForm::Shell { text: shell } => {
            field(entries, "shell", text(shell.as_str()));
        },
    }
}

fn insert_probe(map: &mut Vec<(Yaml, Yaml)>, probe: &ReadinessProbe)
    ensures
        tree_entries(final(map)@) == tree_entries(old(map)@).push(probe_entry(probe@)),
{
    match probe {
        ReadinessProbe::Tcp { host, port } => {
            let mut tcp = no_entries();
            field(&mut tcp, "host", text(host.as_str()));
            field(&mut tcp, "port", number(*port as i64));
            let value = mapping(tcp);
            proof {
                assert(value@->Mapping_0 =~= (probe_entry(probe@).1)->Mapping_0);
            }
            field(map, "tcp", value);
        },
        ReadinessProbe::Http { host, port, path } => {
            let shown = decimal_u64(*port as u64);
            let url = concat5("http://", host.as_str(), ":", shown.as_str(), path.as_str());
            let mut http = no_entries();
            field(&mut http, "url", Yaml::Text(url));
            let value = mapping(http);
            proof {
                assert(value@->Mapping_0 =~= (probe_entry(probe@).1)->Mapping_0);
            }
            field(map, "http", value);
        },
        ReadinessProbe::Exec { command, working_dir, env, success_exit_codes } => {
            let mut block = no_entries();
            insert_command(&mut block, command);
            if let Some(path) = working_dir {
                field(&mut block, "cwd", text(path.as_str()));
            }
            if env.len() > 0 {
                field(&mut block, "environment", mapping(redacted_entries(env)));
            }
            field(&mut block, "success_exit_codes", codes_value(success_exit_codes));
            let value = mapping(block);
            proof {
                assert(value@->Mapping_0 =~= (probe_entry(probe@).1)->Mapping_0);
            }
            field(map, "exec", value);
        },
        ReadinessProbe::Log { contains } => {
            let mut log = no_entries();
            field(&mut log, "contains", text(contains.as_str()));
            let value = mapping(log);
            proof {
                assert(value@->Mapping_0 =~= (probe_entry(probe@).1)->Mapping_0);
            }
            field(map, "log", value);
        },
    }
}

fn check_value(check: &ReadinessCheck) -> (r: Vec<(Yaml, Yaml)>)
    ensures
        tree_entries(r@) == check_entries(check@),
{
    let mut map = no_entries();
    insert_probe(&mut map, &check.probe);
    field(&mut map, "initial_delay", duration(check.initial_delay));
    field(&mut map, "interval", duration(check.interval));
    field(&mut map, "timeout", duration(check.timeout));
    field(&mut map, "success_threshold", number(check.success_threshold as i64));
    field(&mut map, "failure_threshold", number(check.failure_threshold as i64));
    proof {
        assert(tree_entries(map@) =~= check_entries(check@));
    }
    map
}

fn checks_value(checks: &Vec<ReadinessCheck>) -> (r: Vec<(Yaml, Yaml)>)
    ensures
        tree_entries(r@) == policy_entries(check_views(checks@)),
{
    if checks.len() == 1 {
        return check_value(&checks[0]);
    }
    let ghost all = check_views(checks@).map_values(
        |check: CheckView| Tree::Mapping(check_entries(check)),
    );
    let mut items: Vec<Yaml> = Vec::new();
    let mut index: usize = 0;
    proof {
        assert(tree_items(items@) =~= all.take(0));
    }
    while index < checks.len()
        invariant
            index <= checks.len(),
            all == check_views(checks@).map_values(
                |check: CheckView| Tree::Mapping(check_entries(check)),
            ),
            tree_items(items@) == all.take(index as int),
        decreases checks.len() - index,
    {
        let ghost before = tree_items(items@);
        let item = mapping(check_value(&checks[index]));
        items.push(item);
        proof {
            assert(tree_items(items@) =~= before.push(item@));
            assert(all.take(index + 1) =~= all.take(index as int).push(item@));
        }
        index = index + 1;
    }
    proof {
        assert(all.take(index as int) =~= all);
        sequence_tree(items);
    }
    let mut map = no_entries();
    field(&mut map, "all", Yaml::Sequence(items));
    proof {
        assert(tree_entries(map@) =~= policy_entries(check_views(checks@)));
    }
    map
}

fn readiness_value(readiness: &ReadinessConfig) -> (r: Yaml)
    ensures
        r@ == readiness_tree(readiness@),
{
    let mut map = checks_value(&readiness.checks);
    if let Some(timeout) = readiness.startup_timeout {
        field(&mut map, "startup_timeout", duration(timeout));
    }
    let value = mapping(map);
    proof {
        assert(value@->Mapping_0 =~= readiness_tree(readiness@)->Mapping_0);
    }
    value
}

fn restart_value(restart: &RestartConfig) -> (r: Yaml)
    ensures
        r@ == restart_tree(*restart),
{
    let mut map = no_entries();
    field(&mut map, "policy", text(restart.policy.label()));
    field(&mut map, "backoff", duration(restart.backoff));
    field(&mut map, "max_restarts", number(restart.max_restarts as i64));
    field(&mut map, "on_unhealthy", Yaml::Bool(restart.on_unhealthy));
    let value = mapping(map);
    proof {
        assert(value@->Mapping_0 =~= restart_tree(*restart)->Mapping_0);
    }
    value
}

fn process_value(process: &ProcessSpec) -> (r: Yaml)
    ensures
        r@ == process_tree(process@),
{
    let mut map = no_entries();
    field(
        &mut map,
        "kind",
        text(
            match process.kind {
                ProcessKind::Service => "service",
                ProcessKind::OneShot => "one-shot",
            },
        ),
    );
    field(&mut map, "enabled", Yaml::Bool(process.enabled == Enabled::Yes));
    field(&mut map, "autostart", Yaml::Bool(process.autostart == Autostart::Yes));
    field(&mut map, "cwd", text(process.working_dir.as_str()));
    field(&mut map, "environment", process_environment(process));
    field(&mut map, "terminal", terminal_value(process.terminal_mode, process.input_policy));
    field(&mut map, "success_exit_codes", codes_value(&process.success_exit_codes));
    if process.dependencies.len() > 0 {
        field(&mut map, "depends_on", dependencies(&process.dependencies));
    }
    if let Some(readiness) = &process.readiness {
        field(&mut map, "ready", readiness_value(readiness));
    }
    if let Some(liveness) = &process.liveness {
        field(&mut map, "liveness", mapping(checks_value(&liveness.checks)));
    }
    field(&mut map, "restart", restart_value(&process.restart));
    insert_command(&mut map, &process.command);
    let value = mapping(map);
    proof {
        assert(value@->Mapping_0 =~= process_tree(process@)->Mapping_0);
    }
    value
}

fn processes_value(processes: &Vec<ProcessSpec>) -> (r: Yaml)
    ensures
        r@ == Tree::Mapping(
            process_entries(process_views(processes@), processes@.len() as int),
        ),
{
    let mut entries = no_entries();
    let mut index: usize = 0;
    while index < processes.len()
        invariant
            index <= processes.len(),
            tree_entries(entries@) == process_entries(process_views(processes@), index as int),
        decreases processes.len() - index,
    {
        let value = process_value(&processes[index]);
        insert_entry(&mut entries, text(processes[index].name.as_str()), value);
        index = index + 1;
    }
    mapping(entries)
}

fn settings_value(shell: &ShellConfig, port_discovery: bool) -> (r: Yaml)
    ensures
        r@ == Tree::Mapping(
            seq![
                entry(
                    "shell"@,
                    Tree::Mapping(
                        seq![
                            entry("program"@, Tree::Text(shell@.program)),
                            entry("args"@, texts_tree(shell@.args)),
                        ],
                    ),
                ),
                entry("port_discovery"@, Tree::Bool(port_discovery)),
            ],
        ),
{
    let mut launcher = no_entries();
    field(&mut launcher, "program", text(shell.program.as_str()));
    field(&mut launcher, "args", texts_value(&shell.args));
    let ghost inner = seq![
        entry("program"@, Tree::Text(shell@.program)),
        entry("args"@, texts_tree(shell@.args)),
    ];
    proof {
        assert(tree_entries(launcher@) =~= inner);
    }
    let mut settings = no_entries();
    field(&mut settings, "shell", mapping(launcher));
    field(&mut settings, "port_discovery", Yaml::Bool(port_discovery));
    proof {
        assert(tree_entries(settings@) =~= seq![
            entry("shell"@, Tree::Mapping(inner)),
            entry("port_discovery"@, Tree::Bool(port_discovery)),
        ]);
    }
    mapping(settings)
}

/// The whole Project as it is shown, without the values of configured
/// environments.
pub fn canonical_value(project: &EffectiveProject) -> (r: Yaml)
    requires
        project.wf(),
    ensures
        r@ == canonical(
            project.current().processes,
            project.base_name(),
            project.launcher(),
            project.discovers_ports(),
        ),
{
    let mut root = no_entries();
    field(&mut root, "version", number(1));
    if !same_text(project.base_profile_name(), "base") {
        field(&mut root, "base_profile_name", text(project.base_profile_name()));
    }
    field(&mut root, "processes", processes_value(project.processes()));
    field(&mut root, "settings", settings_value(project.shell(), project.port_discovery()));
    let value = mapping(root);
    proof {
        assert(value@->Mapping_0 =~= canonical(
            project.current().processes,
            project.base_name(),
            project.launcher(),
            project.discovers_ports(),
        )->Mapping_0);
    }
    value
}

/// The text that shows a Project, or why there is none.
pub open spec fn rendering(project: EffectiveProject) -> Result<Seq<char>, Seq<char>> {
    match written_yaml(
        canonical(
            project.current().processes,
            project.base_name(),
            project.launcher(),
            project.discovers_ports(),
        ),
    ) {
        Ok(text) => Ok(text),
        Err(detail) => Err("could not render effective Project: "@ + detail),
    }
}

/// Render the validated Project as stable canonical YAML without exposing
/// configured environment values. A Project whose texts are short enough is
/// always rendered.
pub fn render(project: &EffectiveProject) -> (r: Result<String, ConfigError>)
    requires
        project.wf(),
    ensures
        (match r {
            Ok(text) => Ok(text@),
            Err(error) => Err(error.message@),
        }) == rendering(*project),
        project_fits(*project) ==> r is Ok,
{
    proof {
        if project_fits(*project) {
            projects_are_writable(*project);
        }
    }
    let value = canonical_value(project);
    match write_yaml(&value) {
        Ok(text) => Ok(text),
        Err(detail) => Err(
            ConfigError {
                message: concat2("could not render effective Project: ", detail.as_str()),
            },
        ),
    }
}

proof fn redacted_by_keys(
    a: Seq<(Seq<char>, Seq<char>)>,
    b: Seq<(Seq<char>, Seq<char>)>,
    count: int,
)
    requires
        keys_of(a) == keys_of(b),
        0 <= count <= a.len(),
    ensures
        redacted(a, count) == redacted(b, count),
    decreases count,
{
    assert(keys_of(a).len() == a.len());
    assert(keys_of(b).len() == b.len());
    if count > 0 {
        redacted_by_keys(a, b, count - 1);
        assert(keys_of(a)[count - 1] == a[count - 1].0);
        assert(keys_of(b)[count - 1] == b[count - 1].0);
    }
}

/// Two Processes that differ only in the values of their environments are
/// shown alike.
pub proof fn environment_values_do_not_show(a: ProcessView, b: ProcessView)
    requires
        a == (ProcessView { env: a.env, ..b }),
        keys_of(a.env) == keys_of(b.env),
    ensures
        process_tree(a) == process_tree(b),
{
    assert(keys_of(a.env).len() == a.env.len());
    assert(keys_of(b.env).len() == b.env.len());
    redacted_by_keys(a.env, b.env, a.env.len() as int);
}

/// Two exec probes that differ only in the values of their environments are
/// shown alike.
pub proof fn probe_values_do_not_show(
    command: CommandView,
    working_dir: Option<Seq<char>>,
    a: Seq<(Seq<char>, Seq<char>)>,
    b: Seq<(Seq<char>, Seq<char>)>,
    success_exit_codes: Seq<i32>,
)
    requires
        keys_of(a) == keys_of(b),
    ensures
        probe_entry(ProbeView::Exec { command, working_dir, env: a, success_exit_codes })
            == probe_entry(ProbeView::Exec { command, working_dir, env: b, success_exit_codes }),
{
    assert(keys_of(a).len() == a.len());
    assert(keys_of(b).len() == b.len());
    redacted_by_keys(a, b, a.len() as int);
}

proof fn first_variables_are_redacted(
    env: Seq<(Seq<char>, Seq<char>)>,
    count: int,
    key: Seq<char>,
)
    requires
        0 <= count <= env.len(),
    ensures
        value_at(redacted(env, count), Tree::Text(key)) == (if keys_of(env).take(count).contains(
            key,
        ) {
            Some(Tree::Text(REDACTED_VALUE@))
        } else {
            None
        }),
    decreases count,
{
    let names = keys_of(env).take(count);
    if count > 0 {
        let before = keys_of(env).take(count - 1);
        let last = env[count - 1].0;
        first_variables_are_redacted(env, count - 1, key);
        assert(names =~= before.push(last));
        if key == last {
            set_entry_is_read_back(
                redacted(env, count - 1),
                Tree::Text(last),
                Tree::Text(REDACTED_VALUE@),
            );
            assert(names[count - 1] == key);
        } else {
            other_entries_stay(
                redacted(env, count - 1),
                Tree::Text(last),
                Tree::Text(REDACTED_VALUE@),
                Tree::Text(key),
            );
            if before.contains(key) {
                let i = choose|i: int| 0 <= i < before.len() && before[i] == key;
                assert(names[i] == key);
            }
            if names.contains(key) {
                let i = choose|i: int| 0 <= i < names.len() && names[i] == key;
                assert(before[i] == key);
            }
        }
    }
}

proof fn first_removals_are_null(
    entries: Seq<(Tree, Tree)>,
    removed: Seq<Seq<char>>,
    count: int,
    key: Seq<char>,
)
    requires
        0 <= count <= removed.len(),
    ensures
        value_at(with_removed(entries, removed, count), Tree::Text(key)) == (if removed.take(
            count,
        ).contains(key) {
            Some(Tree::Null)
        } else {
            value_at(entries, Tree::Text(key))
        }),
    decreases count,
{
    let names = removed.take(count);
    if count > 0 {
        let before = removed.take(count - 1);
        let last = removed[count - 1];
        first_removals_are_null(entries, removed, count - 1, key);
        assert(names =~= before.push(last));
        if key == last {
            set_entry_is_read_back(
                with_removed(entries, removed, count - 1),
                Tree::Text(last),
                Tree::Null,
            );
            assert(names[count - 1] == key);
        } else {
            other_entries_stay(
                with_removed(entries, removed, count - 1),
                Tree::Text(last),
                Tree::Null,
                Tree::Text(key),
            );
            if before.contains(key) {
                let i = choose|i: int| 0 <= i < before.len() && before[i] == key;
                assert(names[i] == key);
            }
            if names.contains(key) {
                let i = choose|i: int| 0 <= i < names.len() && names[i] == key;
                assert(before[i] == key);
            }
        }
    }
}

/// An environment is shown with null for every removed variable, the redaction
/// for every other variable that has a value, and nothing else.
pub proof fn every_variable_is_redacted(
    env: Seq<(Seq<char>, Seq<char>)>,
    removed: Seq<Seq<char>>,
    key: Seq<char>,
)
    ensures
        environment_tree(env, removed).field(key) == (if removed.contains(key) {
            Some(Tree::Null)
        } else if keys_of(env).contains(key) {
            Some(Tree::Text(REDACTED_VALUE@))
        } else {
            None
        }),
{
    first_variables_are_redacted(env, env.len() as int, key);
    first_removals_are_null(
        redacted(env, env.len() as int),
        removed,
        removed.len() as int,
        key,
    );
    assert(keys_of(env).take(env.len() as int) =~= keys_of(env));
    assert(removed.take(removed.len() as int) =~= removed);
}

/// Whether two probes differ at most in the values of their environments.
pub open spec fn probes_alike(a: ProbeView, b: ProbeView) -> bool {
    match (a, b) {
        (
            ProbeView::Exec { command, working_dir, env, success_exit_codes },
            ProbeView::Exec {
                command: other_command,
                working_dir: other_dir,
                env: other_env,
                success_exit_codes: other_codes,
            },
        ) => command == other_command && working_dir == other_dir && keys_of(env) == keys_of(
            other_env,
        ) && success_exit_codes == other_codes,
        _ => a == b,
    }
}

/// Whether lists of checks differ at most in the values of environments.
pub open spec fn checks_alike(a: Seq<CheckView>, b: Seq<CheckView>) -> bool {
    &&& a.len() == b.len()
    &&& forall|i: int|
        0 <= i < a.len() ==> (#[trigger] a[i]) == (CheckView { probe: a[i].probe, ..b[i] })
            && probes_alike(a[i].probe, b[i].probe)
}

/// Whether two Processes differ at most in the values of their environments
/// and of the environments of their probes.
pub open spec fn specs_alike(a: ProcessView, b: ProcessView) -> bool {
    &&& a == (ProcessView { env: a.env, readiness: a.readiness, liveness: a.liveness, ..b })
    &&& keys_of(a.env) == keys_of(b.env)
    &&& match (a.readiness, b.readiness) {
        (Some(ready), Some(other)) => ready.startup_timeout == other.startup_timeout
            && checks_alike(ready.checks, other.checks),
        _ => a.readiness == b.readiness,
    }
    &&& match (a.liveness, b.liveness) {
        (Some(live), Some(other)) => checks_alike(live, other),
        _ => a.liveness == b.liveness,
    }
}

/// Whether two Projects show Processes that differ at most in the values of
/// environments.
pub open spec fn projects_alike(a: EffectiveProject, b: EffectiveProject) -> bool {
    &&& a.base_name() == b.base_name()
    &&& a.launcher() == b.launcher()
    &&& a.discovers_ports() == b.discovers_ports()
    &&& a.current().processes.len() == b.current().processes.len()
    &&& forall|i: int|
        0 <= i < a.current().processes.len() ==> specs_alike(
            #[trigger] a.current().processes[i],
            b.current().processes[i],
        )
}

proof fn alike_probes_show_alike(a: ProbeView, b: ProbeView)
    requires
        probes_alike(a, b),
    ensures
        probe_entry(a) == probe_entry(b),
{
    if let ProbeView::Exec { command, working_dir, env, success_exit_codes } = a {
        if let ProbeView::Exec { env: other, .. } = b {
            probe_values_do_not_show(command, working_dir, env, other, success_exit_codes);
        }
    }
}

proof fn alike_checks_show_alike(a: Seq<CheckView>, b: Seq<CheckView>)
    requires
        checks_alike(a, b),
    ensures
        policy_entries(a) == policy_entries(b),
{
    assert forall|i: int| 0 <= i < a.len() implies check_entries(#[trigger] a[i]) == check_entries(
        b[i],
    ) by {
        alike_probes_show_alike(a[i].probe, b[i].probe);
    }
    assert(a.map_values(|check: CheckView| Tree::Mapping(check_entries(check))) =~= b.map_values(
        |check: CheckView| Tree::Mapping(check_entries(check)),
    ));
}

proof fn alike_processes_show_alike(a: ProcessView, b: ProcessView)
    requires
        specs_alike(a, b),
    ensures
        process_tree(a) == process_tree(b),
{
    if let (Some(ready), Some(other)) = (a.readiness, b.readiness) {
        alike_checks_show_alike(ready.checks, other.checks);
    }
    if let (Some(live), Some(other)) = (a.liveness, b.liveness) {
        alike_checks_show_alike(live, other);
    }
    environment_values_do_not_show(a, ProcessView { env: b.env, ..a });
}

proof fn alike_lists_show_alike(a: Seq<ProcessView>, b: Seq<ProcessView>, count: int)
    requires
        a.len() == b.len(),
        0 <= count <= a.len(),
        forall|i: int| 0 <= i < a.len() ==> specs_alike(#[trigger] a[i], b[i]),
    ensures
        process_entries(a, count) == process_entries(b, count),
    decreases count,
{
    if count > 0 {
        alike_lists_show_alike(a, b, count - 1);
        assert(specs_alike(a[count - 1], b[count - 1]));
        alike_processes_show_alike(a[count - 1], b[count - 1]);
    }
}

/// Two Projects that differ only in the values of the environments of their
/// Processes and of their readiness and liveness probes are shown alike: no
/// such value can be read from what is shown.
pub proof fn project_values_do_not_show(a: EffectiveProject, b: EffectiveProject)
    requires
        projects_alike(a, b),
    ensures
        rendering(a) == rendering(b),
{
    alike_lists_show_alike(
        a.current().processes,
        b.current().processes,
        a.current().processes.len() as int,
    );
}

/// A written number is read back.
pub proof fn decimal_is_read_back(number: nat)
    ensures
        all_digits(decimal_text(number)),
        digits_value(decimal_text(number)) == number,
    decreases number,
{
    let text = decimal_text(number);
    let last = (number % 10) as int;
    assert(digit_character(last) as nat - '0' as nat == last);
    if number < 10 {
        assert(text.drop_last() =~= Seq::<char>::empty());
        assert(digits_value(text.drop_last()) == 0);
    } else {
        decimal_is_read_back(number / 10);
        assert(text.drop_last() =~= decimal_text(number / 10));
    }
}

/// Each unit of time is told apart by its suffix.
pub proof fn suffix_is_taken_off(number: nat)
    ensures
        duration_parts(decimal_text(number) + "ms"@) == Some((decimal_text(number), 1_000_000nat)),
        duration_parts(decimal_text(number) + "s"@) == Some(
            (decimal_text(number), 1_000_000_000nat),
        ),
        duration_parts(decimal_text(number) + "m"@) == Some(
            (decimal_text(number), 60_000_000_000nat),
        ),
        duration_parts(decimal_text(number) + "h"@) == Some(
            (decimal_text(number), 3_600_000_000_000nat),
        ),
{
    decimal_is_read_back(number);
    let digits = decimal_text(number);
    reveal_strlit("ms");
    reveal_strlit("s");
    reveal_strlit("m");
    reveal_strlit("h");
    let count = digits.len() as int;
    assert(is_digit(digits[count - 1]));
    let millis = digits + "ms"@;
    assert(millis.skip(count) =~= "ms"@);
    assert(millis.take(count) =~= digits);
    let seconds = digits + "s"@;
    assert(seconds[count - 1] == digits[count - 1]);
    assert(seconds.skip(count) =~= "s"@);
    assert(seconds.take(count) =~= digits);
    assert(seconds.skip(count - 1)[0] != "ms"@[0]);
    let minutes = digits + "m"@;
    assert(minutes.skip(count) =~= "m"@);
    assert(minutes.take(count) =~= digits);
    assert(minutes.skip(count - 1)[1] != "ms"@[1]);
    assert(minutes.skip(count)[0] != "s"@[0]);
    let hours = digits + "h"@;
    assert(hours.skip(count) =~= "h"@);
    assert(hours.take(count) =~= digits);
    assert(hours.skip(count - 1)[1] != "ms"@[1]);
    assert(hours.skip(count)[0] != "s"@[0]);
    assert(hours.skip(count)[0] != "m"@[0]);
}

/// A span of whole milliseconds is read back from what shows it.
pub proof fn shown_duration_is_read_back(value: Duration)
    requires
        value.wf(),
        value.nanos % 1_000_000 == 0,
    ensures
        duration_reading(duration_text(value)) == Ok::<Duration, Seq<char>>(value),
{
    let millis = value.total_millis() as nat;
    decimal_is_read_back(millis);
    decimal_is_read_back(millis / 1_000);
    decimal_is_read_back(millis / 60_000);
    decimal_is_read_back(millis / 3_600_000);
    suffix_is_taken_off(millis);
    suffix_is_taken_off(millis / 1_000);
    suffix_is_taken_off(millis / 60_000);
    suffix_is_taken_off(millis / 3_600_000);
    if millis == 0 {
        reveal_strlit("0ms");
        reveal_strlit("ms");
        assert("0ms"@ =~= decimal_text(0) + "ms"@);
    }
    let nanos = millis * 1_000_000;
    assert(nanos == value.total_nanos());
    assert(nanos / 1_000_000_000 == value.seconds);
    assert(nanos % 1_000_000_000 == value.nanos);
    let (digits, unit) = duration_parts(duration_text(value))->0;
    assert(digits_value(digits) * unit == nanos) by {
        if millis == 0 {
            assert(digits_value(digits) == 0);
        } else if millis % 3_600_000 == 0 {
            assert(unit == 3_600_000_000_000);
            assert((millis / 3_600_000) * 3_600_000_000_000 == millis * 1_000_000);
        } else if millis % 60_000 == 0 {
            assert((millis / 60_000) * 60_000_000_000 == millis * 1_000_000);
        } else if millis % 1_000 == 0 {
            assert((millis / 1_000) * 1_000_000_000 == millis * 1_000_000);
        }
    }
}

proof fn first_place(text: Seq<char>, word: Seq<char>, from: int, at: int)
    requires
        0 <= from <= at,
        word_at(text, word, at),
        forall|i: int| from <= i < at ==> !#[trigger] word_at(text, word, i),
    ensures
        word_position(text, word, from) == Some(at),
    decreases at - from,
{
    if from < at {
        assert(!word_at(text, word, from));
        first_place(text, word, from + 1, at);
    }
}

proof fn place_is_first(text: Seq<char>, word: Seq<char>, from: int)
    requires
        0 <= from,
    ensures
        word_position(text, word, from) matches Some(at) ==> from <= at && word_at(text, word, at)
            && (forall|i: int| from <= i < at ==> !#[trigger] word_at(text, word, i)),
        word_position(text, word, from) is None ==> (forall|i: int|
            from <= i ==> !#[trigger] word_at(text, word, i)),
    decreases text.len() + 1 - from,
{
    if from <= text.len() && !word_at(text, word, from) {
        place_is_first(text, word, from + 1);
    }
}

proof fn last_place(text: Seq<char>, character: char, end: int, at: int)
    requires
        0 <= at < end <= text.len(),
        text[at] == character,
        forall|i: int| at < i < end ==> #[trigger] text[i] != character,
    ensures
        last_position(text, character, end) == Some(at),
    decreases end - at,
{
    if at < end - 1 {
        last_place(text, character, end - 1, at);
    }
}

proof fn place_is_last(text: Seq<char>, character: char, end: int)
    requires
        0 <= end <= text.len(),
    ensures
        last_position(text, character, end) matches Some(at) ==> 0 <= at < end && text[at]
            == character,
    decreases end,
{
    if end > 0 && text[end - 1] != character {
        place_is_last(text, character, end - 1);
    }
}

proof fn one_character(text: Seq<char>, character: char, at: int)
    ensures
        word_at(text, seq![character], at) == (0 <= at < text.len() && text[at] == character),
{
    if 0 <= at < text.len() {
        let piece = text.subrange(at, at + 1);
        assert(piece[0] == text[at]);
        if text[at] == character {
            assert(piece =~= seq![character]);
        }
    }
}

/// What an URL names: a host that is not empty, is no literal address in
/// brackets and holds neither a slash nor an at sign, a port above zero, and a
/// path that begins with a slash.
pub proof fn named_target(url: Seq<char>)
    ensures
        url_reading(url) matches Ok((host, port, path)) ==> {
            &&& 0 < host.len()
            &&& host[0] != '['
            &&& forall|i: int| 0 <= i < host.len() ==> #[trigger] host[i] != '/' && host[i] != '@'
            &&& 0 < port
            &&& 0 < path.len()
            &&& path[0] == '/'
        },
{
    reveal_strlit("/");
    reveal_strlit("[");
    reveal_strlit("@");
    assert("/"@ =~= seq!['/']);
    assert("["@ =~= seq!['[']);
    assert("@"@ =~= seq!['@']);
    if let Some(rest) = after_prefix(url, "http://"@) {
        let (authority, path) = url_parts(rest);
        place_is_first(rest, "/"@, 0);
        assert forall|i: int| 0 <= i < authority.len() implies #[trigger] authority[i] != '/' by {
            one_character(rest, '/', i);
            assert(!word_at(rest, "/"@, i));
        }
        one_character(authority, '[', 0);
        assert forall|i: int| 0 <= i < authority.len() && !holds(authority, "@"@) implies
            #[trigger] authority[i] != '@' by {
            one_character(authority, '@', i);
            assert(!word_at(authority, "@"@, i));
        }
        place_is_last(authority, ':', authority.len() as int);
    }
}

/// Whether a text can be the host of an URL: it is not empty, is no literal
/// address in brackets, and holds neither a slash nor an at sign.
pub open spec fn plain_host(host: Seq<char>) -> bool {
    &&& 0 < host.len()
    &&& host[0] != '['
    &&& forall|i: int| 0 <= i < host.len() ==> #[trigger] host[i] != '/' && host[i] != '@'
}

/// An URL with a host, a port and a path names just those.
pub proof fn urls_name_their_target(host: Seq<char>, port: u16, path: Seq<char>)
    requires
        plain_host(host),
        0 < port,
        0 < path.len(),
        path[0] == '/',
    ensures
        url_reading("http://"@ + host + ":"@ + decimal_text(port as nat) + path) == Ok::<
            (Seq<char>, u16, Seq<char>),
            Seq<char>,
        >((host, port, path)),
{
    decimal_is_read_back(port as nat);
    reveal_strlit("/");
    reveal_strlit("[");
    reveal_strlit("@");
    reveal_strlit(":");
    assert("/"@ =~= seq!['/']);
    assert("["@ =~= seq!['[']);
    assert("@"@ =~= seq!['@']);
    let digits = decimal_text(port as nat);
    let shown = "http://"@ + host + ":"@ + digits + path;
    let authority = host + ":"@ + digits;
    let rest = authority + path;
    let count = "http://"@.len() as int;
    assert(shown.subrange(0, count) =~= "http://"@);
    assert(shown.skip(count) =~= rest);
    let at = authority.len() as int;
    assert forall|i: int| 0 <= i < at implies !#[trigger] word_at(rest, "/"@, i) by {
        one_character(rest, '/', i);
        if i > host.len() {
            assert(is_digit(digits[i - host.len() - 1]));
        }
    }
    one_character(rest, '/', at);
    first_place(rest, "/"@, 0, at);
    assert(rest.take(at) =~= authority);
    assert("/"@ + rest.skip(at + 1) =~= path);
    one_character(authority, '[', 0);
    assert forall|i: int| !#[trigger] word_at(authority, "@"@, i) by {
        one_character(authority, '@', i);
        if host.len() < i < authority.len() {
            assert(is_digit(digits[i - host.len() - 1]));
        }
    }
    assert forall|i: int| host.len() < i < at implies #[trigger] authority[i] != ':' by {
        assert(is_digit(digits[i - host.len() - 1]));
    }
    last_place(authority, ':', at, host.len() as int);
    assert(authority.take(host.len() as int) =~= host);
    assert(authority.skip((host.len() + 1) as int) =~= digits);
    assert(is_digit(digits[0]));
}

/// An URL without a port means port 80, and one without a path means its root.
pub proof fn urls_without_a_port_mean_eighty(host: Seq<char>, path: Seq<char>)
    requires
        plain_host(host),
        !host.contains(':'),
        path.len() > 0 ==> path[0] == '/',
    ensures
        url_reading("http://"@ + host + path) == Ok::<(Seq<char>, u16, Seq<char>), Seq<char>>(
            (
                host,
                80,
                if path.len() == 0 {
                    "/"@
                } else {
                    path
                },
            ),
        ),
{
    reveal_strlit("/");
    reveal_strlit("[");
    reveal_strlit("@");
    assert("/"@ =~= seq!['/']);
    assert("["@ =~= seq!['[']);
    assert("@"@ =~= seq!['@']);
    let url = "http://"@ + host + path;
    let rest = host + path;
    let count = "http://"@.len() as int;
    assert(url.subrange(0, count) =~= "http://"@);
    assert(url.skip(count) =~= rest);
    let at = host.len() as int;
    assert forall|i: int| 0 <= i < at implies !#[trigger] word_at(rest, "/"@, i) by {
        one_character(rest, '/', i);
        assert(rest[i] == host[i]);
    }
    if path.len() > 0 {
        one_character(rest, '/', at);
        first_place(rest, "/"@, 0, at);
        assert(rest.take(at) =~= host);
        assert("/"@ + rest.skip(at + 1) =~= path);
    } else {
        assert(rest =~= host);
        place_is_first(rest, "/"@, 0);
        if let Some(found) = word_position(rest, "/"@, 0) {
            one_character(rest, '/', found);
        }
    }
    one_character(host, '[', 0);
    assert forall|i: int| !#[trigger] word_at(host, "@"@, i) by {
        one_character(host, '@', i);
    }
    place_is_last(host, ':', at);
    if let Some(found) = last_position(host, ':', at) {
        assert(host.contains(host[found]));
    }
}

/// Only plain `http` URLs are accepted.
pub proof fn only_http_urls_are_accepted(url: Seq<char>)
    ensures
        url_reading(url) is Ok ==> url.len() >= 7 && url.take(7) == "http://"@,
{
    reveal_strlit("http://");
    assert("http://"@.len() == 7);
    if let Some(rest) = after_prefix(url, "http://"@) {
        assert(url.take(7) =~= url.subrange(0, 7));
    }
}

/// The URL that shows an `http` probe names the probe again.
pub proof fn shown_url_is_read_back(url: Seq<char>, host: Seq<char>, port: u16, path: Seq<char>)
    requires
        url_reading(url) == Ok::<(Seq<char>, u16, Seq<char>), Seq<char>>((host, port, path)),
    ensures
        url_reading("http://"@ + host + ":"@ + decimal_text(port as nat) + path) == Ok::<
            (Seq<char>, u16, Seq<char>),
            Seq<char>,
        >((host, port, path)),
{
    named_target(url);
    urls_name_their_target(host, port, path);
}

} // verus!
