//! Every Project is shown: what stands for it is surely written, as long as its
//! texts are short enough.

use vstd::prelude::*;

use crate::duration::Duration;
use crate::project::EffectiveProject;

#[allow(unused_imports)]
use super::order::keys_of;
#[allow(unused_imports)]
use super::show::{
    canonical, check_entries, codes_tree, command_entry, dependency_entries, duration_tree, entry,
    environment_tree, number_tree, policy_entries, probe_entry, process_entries, process_tree,
    readiness_tree, redacted, restart_tree, terminal_tree, texts_tree, with_removed,
    REDACTED_VALUE,
};
#[allow(unused_imports)]
use crate::model::{
    Autostart, CheckView, CommandView, DependencyCondition, Enabled, InputPolicy, ProbeView,
    ProcessKind, ProcessView, ReadinessView, RestartConfig, TerminalMode,
};
#[allow(unused_imports)]
use crate::text::decimal_text;
#[allow(unused_imports)]
use crate::yaml::{fits, found_position, with_entry, writable, Tree};

verus! {

/// Whether every text of a list is short enough.
pub open spec fn all_fit(texts: Seq<Seq<char>>) -> bool {
    forall|i: int| 0 <= i < texts.len() ==> fits(#[trigger] texts[i])
}

/// Whether the texts of a command are short enough.
pub open spec fn command_fits(command: CommandView) -> bool {
    match command {
        CommandView::Direct { program, args } => fits(program) && all_fit(args),
        CommandView::Shell { text } => fits(text),
    }
}

/// Whether the shown texts of a probe are short enough.
pub open spec fn probe_fits(probe: ProbeView) -> bool {
    match probe {
        ProbeView::Tcp { host, .. } => fits(host),
        ProbeView::Http { host, port, path } => fits(
            "http://"@ + host + ":"@ + decimal_text(port as nat) + path,
        ),
        ProbeView::Exec { command, working_dir, env, .. } => {
            &&& command_fits(command)
            &&& working_dir matches Some(path) ==> fits(path)
            &&& all_fit(keys_of(env))
        },
        ProbeView::Log { contains } => fits(contains),
    }
}

/// Whether the shown texts of checks are short enough.
pub open spec fn checks_fit(checks: Seq<CheckView>) -> bool {
    forall|i: int| 0 <= i < checks.len() ==> probe_fits((#[trigger] checks[i]).probe)
}

/// Whether the shown texts of a Process are short enough.
pub open spec fn process_fits(process: ProcessView) -> bool {
    &&& fits(process.name)
    &&& fits(process.working_dir)
    &&& all_fit(keys_of(process.env))
    &&& all_fit(process.env_remove)
    &&& forall|i: int|
        0 <= i < process.dependencies.len() ==> fits((#[trigger] process.dependencies[i]).0)
    &&& process.readiness matches Some(readiness) ==> checks_fit(readiness.checks)
    &&& process.liveness matches Some(checks) ==> checks_fit(checks)
    &&& command_fits(process.command)
}

/// Whether the shown texts of a Project are short enough.
pub open spec fn project_fits(project: EffectiveProject) -> bool {
    &&& fits(project.base_name())
    &&& fits(project.launcher().program)
    &&& all_fit(project.launcher().args)
    &&& forall|i: int|
        0 <= i < project.current().processes.len() ==> process_fits(
            #[trigger] project.current().processes[i],
        )
}

spec fn entries_writable(entries: Seq<(Tree, Tree)>) -> bool {
    writable(Tree::Mapping(entries))
}

proof fn entry_added(entries: Seq<(Tree, Tree)>, key: Seq<char>, value: Tree)
    requires
        entries_writable(entries),
        fits(key),
        writable(value),
    ensures
        entries_writable(with_entry(entries, Tree::Text(key), value)),
{
    let after = with_entry(entries, Tree::Text(key), value);
    found_position(entries, Tree::Text(key), 0);
    assert forall|i: int| 0 <= i < after.len() implies ((#[trigger] after[i]).0 is Text && fits(
        after[i].0->Text_0,
    ) && writable(after[i].1)) by {
        if i < entries.len() {
            assert(entries[i].0 is Text);
        }
    }
}

proof fn joined_writable(a: Seq<(Tree, Tree)>, b: Seq<(Tree, Tree)>)
    requires
        entries_writable(a),
        entries_writable(b),
    ensures
        entries_writable(a + b),
{
    let all = a + b;
    assert forall|i: int| 0 <= i < all.len() implies ((#[trigger] all[i]).0 is Text && fits(
        all[i].0->Text_0,
    ) && writable(all[i].1)) by {
        if i < a.len() {
            assert(all[i] == a[i]);
        } else {
            assert(all[i] == b[i - a.len()]);
        }
    }
}

proof fn one_writable(key: Seq<char>, value: Tree)
    requires
        fits(key),
        writable(value),
    ensures
        entries_writable(seq![entry(key, value)]),
{
}

proof fn texts_writable(texts: Seq<Seq<char>>)
    requires
        all_fit(texts),
    ensures
        writable(texts_tree(texts)),
{
    reveal_with_fuel(writable, 2);
}

proof fn codes_writable(codes: Seq<i32>)
    ensures
        writable(codes_tree(codes)),
{
    reveal_with_fuel(writable, 2);
}

spec fn ten_to(count: nat) -> nat
    decreases count,
{
    if count == 0 {
        1
    } else {
        10 * ten_to((count - 1) as nat)
    }
}

proof fn few_digits(number: nat, count: nat)
    requires
        0 < count,
        number < ten_to(count),
    ensures
        decimal_text(number).len() <= count,
    decreases count,
{
    if number >= 10 {
        if count == 1 {
            assert(ten_to(0) == 1);
        }
        few_digits(number / 10, (count - 1) as nat);
    }
}

proof fn duration_writable(value: Duration)
    ensures
        writable(duration_tree(value)),
{
    let millis = value.total_millis() as nat;
    assert(ten_to(24) == 1_000_000_000_000_000_000_000_000) by {
        reveal_with_fuel(ten_to, 25);
    }
    few_digits(millis, 24);
    few_digits(millis / 1_000, 24);
    few_digits(millis / 60_000, 24);
    few_digits(millis / 3_600_000, 24);
    reveal_strlit("0ms");
    reveal_strlit("ms");
    reveal_strlit("s");
    reveal_strlit("m");
    reveal_strlit("h");
}

proof fn redacted_writable(env: Seq<(Seq<char>, Seq<char>)>, count: int)
    requires
        all_fit(keys_of(env)),
        0 <= count <= env.len(),
    ensures
        entries_writable(redacted(env, count)),
    decreases count,
{
    if count > 0 {
        redacted_writable(env, count - 1);
        assert(keys_of(env)[count - 1] == env[count - 1].0);
        reveal_strlit("<redacted>");
        entry_added(
            redacted(env, count - 1),
            env[count - 1].0,
            Tree::Text(REDACTED_VALUE@),
        );
    }
}

proof fn removed_writable(entries: Seq<(Tree, Tree)>, removed: Seq<Seq<char>>, count: int)
    requires
        entries_writable(entries),
        all_fit(removed),
        0 <= count <= removed.len(),
    ensures
        entries_writable(with_removed(entries, removed, count)),
    decreases count,
{
    if count > 0 {
        removed_writable(entries, removed, count - 1);
        entry_added(with_removed(entries, removed, count - 1), removed[count - 1], Tree::Null);
    }
}

proof fn environment_writable(env: Seq<(Seq<char>, Seq<char>)>, removed: Seq<Seq<char>>)
    requires
        all_fit(keys_of(env)),
        all_fit(removed),
    ensures
        writable(environment_tree(env, removed)),
{
    redacted_writable(env, env.len() as int);
    removed_writable(redacted(env, env.len() as int), removed, removed.len() as int);
}

proof fn dependencies_writable(dependencies: Seq<(Seq<char>, DependencyCondition)>, count: int)
    requires
        0 <= count <= dependencies.len(),
        forall|i: int| 0 <= i < dependencies.len() ==> fits((#[trigger] dependencies[i]).0),
    ensures
        entries_writable(dependency_entries(dependencies, count)),
    decreases count,
{
    if count > 0 {
        dependencies_writable(dependencies, count - 1);
        reveal_strlit("started");
        reveal_strlit("ready");
        reveal_strlit("exited");
        reveal_strlit("completed_successfully");
        entry_added(
            dependency_entries(dependencies, count - 1),
            dependencies[count - 1].0,
            Tree::Text(dependencies[count - 1].1.spelling()),
        );
    }
}

proof fn command_writable(command: CommandView)
    requires
        command_fits(command),
    ensures
        entries_writable(seq![command_entry(command)]),
{
    reveal_strlit("command");
    reveal_strlit("shell");
    match command {
        CommandView::Direct { program, args } => {
            let words = seq![program] + args;
            assert forall|i: int| 0 <= i < words.len() implies fits(#[trigger] words[i]) by {
                if i > 0 {
                    assert(words[i] == args[i - 1]);
                }
            }
            texts_writable(words);
            one_writable("command"@, texts_tree(words));
        },
        CommandView::Shell { text } => {
            one_writable("shell"@, Tree::Text(text));
        },
    }
}

proof fn probe_writable(probe: ProbeView)
    requires
        probe_fits(probe),
    ensures
        entries_writable(seq![probe_entry(probe)]),
{
    reveal_with_fuel(writable, 2);
    reveal_strlit("tcp");
    reveal_strlit("host");
    reveal_strlit("port");
    reveal_strlit("http");
    reveal_strlit("url");
    reveal_strlit("exec");
    reveal_strlit("log");
    reveal_strlit("contains");
    reveal_strlit("cwd");
    reveal_strlit("environment");
    reveal_strlit("success_exit_codes");
    match probe {
        ProbeView::Tcp { host, port } => {
            let fields = seq![
                entry("host"@, Tree::Text(host)),
                entry("port"@, number_tree(port as int)),
            ];
            assert(entries_writable(fields));
            one_writable("tcp"@, Tree::Mapping(fields));
        },
        ProbeView::Http { host, port, path } => {
            let url = "http://"@ + host + ":"@ + decimal_text(port as nat) + path;
            one_writable("url"@, Tree::Text(url));
            one_writable("http"@, Tree::Mapping(seq![entry("url"@, Tree::Text(url))]));
        },
        ProbeView::Exec { command, working_dir, env, success_exit_codes } => {
            let directory = match working_dir {
                Some(path) => seq![entry("cwd"@, Tree::Text(path))],
                None => Seq::empty(),
            };
            let variables = Tree::Mapping(redacted(env, env.len() as int));
            let environment = if env.len() == 0 {
                Seq::empty()
            } else {
                seq![entry("environment"@, variables)]
            };
            let codes = seq![entry("success_exit_codes"@, codes_tree(success_exit_codes))];
            command_writable(command);
            redacted_writable(env, env.len() as int);
            one_writable("environment"@, variables);
            codes_writable(success_exit_codes);
            one_writable("success_exit_codes"@, codes_tree(success_exit_codes));
            assert(entries_writable(directory));
            assert(entries_writable(environment));
            joined_writable(seq![command_entry(command)], directory);
            joined_writable(seq![command_entry(command)] + directory, environment);
            joined_writable(seq![command_entry(command)] + directory + environment, codes);
            one_writable(
                "exec"@,
                Tree::Mapping(seq![command_entry(command)] + directory + environment + codes),
            );
        },
        ProbeView::Log { contains } => {
            one_writable("contains"@, Tree::Text(contains));
            one_writable("log"@, Tree::Mapping(seq![entry("contains"@, Tree::Text(contains))]));
        },
    }
}

proof fn check_writable(check: CheckView)
    requires
        probe_fits(check.probe),
    ensures
        entries_writable(check_entries(check)),
{
    reveal_with_fuel(writable, 2);
    reveal_strlit("initial_delay");
    reveal_strlit("interval");
    reveal_strlit("timeout");
    reveal_strlit("success_threshold");
    reveal_strlit("failure_threshold");
    probe_writable(check.probe);
    assert(seq![probe_entry(check.probe)][0].0 is Text);
    duration_writable(check.initial_delay);
    duration_writable(check.interval);
    duration_writable(check.timeout);
    let rest = seq![
        entry("initial_delay"@, duration_tree(check.initial_delay)),
        entry("interval"@, duration_tree(check.interval)),
        entry("timeout"@, duration_tree(check.timeout)),
        entry("success_threshold"@, number_tree(check.success_threshold as int)),
        entry("failure_threshold"@, number_tree(check.failure_threshold as int)),
    ];
    assert(entries_writable(rest));
    joined_writable(seq![probe_entry(check.probe)], rest);
    assert(check_entries(check) =~= seq![probe_entry(check.probe)] + rest);
}

proof fn policy_writable(checks: Seq<CheckView>)
    requires
        checks_fit(checks),
    ensures
        entries_writable(policy_entries(checks)),
{
    assert forall|i: int| 0 <= i < checks.len() implies entries_writable(
        check_entries(#[trigger] checks[i]),
    ) by {
        check_writable(checks[i]);
    }
    if checks.len() != 1 {
        reveal_strlit("all");
        let items = checks.map_values(|check: CheckView| Tree::Mapping(check_entries(check)));
        assert forall|i: int| 0 <= i < items.len() implies writable(#[trigger] items[i]) by {
            assert(entries_writable(check_entries(checks[i])));
        }
        one_writable("all"@, Tree::Sequence(items));
    } else {
        assert(entries_writable(check_entries(checks[0])));
    }
}

proof fn readiness_writable(readiness: ReadinessView)
    requires
        checks_fit(readiness.checks),
    ensures
        writable(readiness_tree(readiness)),
{
    reveal_strlit("startup_timeout");
    policy_writable(readiness.checks);
    let deadline = match readiness.startup_timeout {
        Some(timeout) => seq![entry("startup_timeout"@, duration_tree(timeout))],
        None => Seq::empty(),
    };
    if let Some(timeout) = readiness.startup_timeout {
        duration_writable(timeout);
        one_writable("startup_timeout"@, duration_tree(timeout));
    }
    assert(entries_writable(deadline));
    joined_writable(policy_entries(readiness.checks), deadline);
}

proof fn restart_writable(restart: RestartConfig)
    ensures
        writable(restart_tree(restart)),
{
    reveal_with_fuel(writable, 2);
    reveal_strlit("policy");
    reveal_strlit("backoff");
    reveal_strlit("max_restarts");
    reveal_strlit("on_unhealthy");
    reveal_strlit("never");
    reveal_strlit("on_failure");
    reveal_strlit("always");
    duration_writable(restart.backoff);
}

proof fn terminal_writable(mode: TerminalMode, input: InputPolicy)
    ensures
        writable(terminal_tree(mode, input)),
{
    reveal_with_fuel(writable, 2);
    reveal_strlit("mode");
    reveal_strlit("input");
    reveal_strlit("pipe");
    reveal_strlit("pty");
    reveal_strlit("disabled");
    reveal_strlit("focused");
}

proof fn process_writable(process: ProcessView)
    requires
        process_fits(process),
    ensures
        writable(process_tree(process)),
{
    reveal_with_fuel(writable, 2);
    reveal_strlit("kind");
    reveal_strlit("service");
    reveal_strlit("one-shot");
    reveal_strlit("enabled");
    reveal_strlit("autostart");
    reveal_strlit("cwd");
    reveal_strlit("environment");
    reveal_strlit("terminal");
    reveal_strlit("success_exit_codes");
    reveal_strlit("depends_on");
    reveal_strlit("ready");
    reveal_strlit("liveness");
    reveal_strlit("restart");
    environment_writable(process.env, process.env_remove);
    terminal_writable(process.terminal_mode, process.input_policy);
    codes_writable(process.success_exit_codes);
    restart_writable(process.restart);
    command_writable(process.command);
    let count = process.dependencies.len() as int;
    dependencies_writable(process.dependencies, count);
    let first = seq![
        entry(
            "kind"@,
            Tree::Text(
                match process.kind {
                    ProcessKind::Service => "service"@,
                    ProcessKind::OneShot => "one-shot"@,
                },
            ),
        ),
        entry("enabled"@, Tree::Bool(process.enabled == Enabled::Yes)),
        entry("autostart"@, Tree::Bool(process.autostart == Autostart::Yes)),
        entry("cwd"@, Tree::Text(process.working_dir)),
        entry("environment"@, environment_tree(process.env, process.env_remove)),
        entry("terminal"@, terminal_tree(process.terminal_mode, process.input_policy)),
        entry("success_exit_codes"@, codes_tree(process.success_exit_codes)),
    ];
    assert(entries_writable(first));
    let dependencies = if process.dependencies.len() == 0 {
        Seq::empty()
    } else {
        seq![
            entry("depends_on"@, Tree::Mapping(dependency_entries(process.dependencies, count))),
        ]
    };
    one_writable("depends_on"@, Tree::Mapping(dependency_entries(process.dependencies, count)));
    assert(entries_writable(dependencies));
    let ready = match process.readiness {
        Some(readiness) => seq![entry("ready"@, readiness_tree(readiness))],
        None => Seq::empty(),
    };
    if let Some(readiness) = process.readiness {
        readiness_writable(readiness);
        one_writable("ready"@, readiness_tree(readiness));
    }
    assert(entries_writable(ready));
    let liveness = match process.liveness {
        Some(checks) => seq![entry("liveness"@, Tree::Mapping(policy_entries(checks)))],
        None => Seq::empty(),
    };
    if let Some(checks) = process.liveness {
        policy_writable(checks);
        one_writable("liveness"@, Tree::Mapping(policy_entries(checks)));
    }
    assert(entries_writable(liveness));
    let restart = seq![entry("restart"@, restart_tree(process.restart))];
    let command = seq![command_entry(process.command)];
    one_writable("restart"@, restart_tree(process.restart));
    joined_writable(restart, command);
    let last = seq![
        entry("restart"@, restart_tree(process.restart)),
        command_entry(process.command),
    ];
    assert(last =~= restart + command);
    joined_writable(first, dependencies);
    joined_writable(first + dependencies, ready);
    joined_writable(first + dependencies + ready, liveness);
    joined_writable(first + dependencies + ready + liveness, last);
}

proof fn processes_writable(processes: Seq<ProcessView>, count: int)
    requires
        0 <= count <= processes.len(),
        forall|i: int| 0 <= i < processes.len() ==> process_fits(#[trigger] processes[i]),
    ensures
        entries_writable(process_entries(processes, count)),
    decreases count,
{
    if count > 0 {
        processes_writable(processes, count - 1);
        assert(process_fits(processes[count - 1]));
        process_writable(processes[count - 1]);
        entry_added(
            process_entries(processes, count - 1),
            processes[count - 1].name,
            process_tree(processes[count - 1]),
        );
    }
}

/// What stands for a Project whose texts are short enough is surely written.
pub proof fn projects_are_writable(project: EffectiveProject)
    requires
        project_fits(project),
    ensures
        writable(
            canonical(
                project.current().processes,
                project.base_name(),
                project.launcher(),
                project.discovers_ports(),
            ),
        ),
{
    reveal_with_fuel(writable, 2);
    reveal_strlit("version");
    reveal_strlit("base");
    reveal_strlit("base_profile_name");
    reveal_strlit("processes");
    reveal_strlit("settings");
    reveal_strlit("shell");
    reveal_strlit("program");
    reveal_strlit("args");
    reveal_strlit("port_discovery");
    let processes = project.current().processes;
    let shell = project.launcher();
    processes_writable(processes, processes.len() as int);
    texts_writable(shell.args);
    let launcher = seq![
        entry("program"@, Tree::Text(shell.program)),
        entry("args"@, texts_tree(shell.args)),
    ];
    assert(entries_writable(launcher));
    let settings = seq![
        entry("shell"@, Tree::Mapping(launcher)),
        entry("port_discovery"@, Tree::Bool(project.discovers_ports())),
    ];
    assert(entries_writable(settings));
    let version = seq![entry("version"@, number_tree(1))];
    assert(entries_writable(version));
    let base = if project.base_name() == "base"@ {
        Seq::empty()
    } else {
        seq![entry("base_profile_name"@, Tree::Text(project.base_name()))]
    };
    assert(entries_writable(base));
    let rest = seq![
        entry("processes"@, Tree::Mapping(process_entries(processes, processes.len() as int))),
        entry("settings"@, Tree::Mapping(settings)),
    ];
    assert(entries_writable(rest));
    joined_writable(version, base);
    joined_writable(version + base, rest);
}

} // verus!
