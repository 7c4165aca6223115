//! The effective Project model.
//!
//! Configuration lowers into these types. The Supervisor consumes them and
//! never sees configuration text or diagnostics. Paths and program words are
//! plain text.

use vstd::prelude::*;

use crate::duration::Duration;
use crate::text::{pairs, same_text, texts};

verus! {

/// How a Process expects to run. A Process is exactly one of these kinds.
#[derive(Clone, Copy, Debug, PartialEq, Eq, Structural)]
pub enum ProcessKind {
    /// A Process that stays active until it is stopped.
    Service,
    /// A Process that runs to completion and exits.
    OneShot,
}

/// What the Supervisor should do with a Process when the Project starts.
#[derive(Clone, Copy, Debug, PartialEq, Eq, Structural)]
pub enum Autostart {
    /// Start the Process when the Project starts.
    Yes,
    /// Leave the Process stopped; it remains available for a manual start.
    No,
}

impl Autostart {
    pub fn flag(value: bool) -> (r: Self)
        ensures
            r == (if value { Autostart::Yes } else { Autostart::No }),
    {
        if value {
            Autostart::Yes
        } else {
            Autostart::No
        }
    }
}

/// When a failed or unexpected Run should be started again automatically.
#[derive(Clone, Copy, Debug, PartialEq, Eq, Structural)]
pub enum RestartPolicy {
    /// Never start another Run without a user command.
    Never,
    /// Start another Run only after a failed Run.
    OnFailure,
    /// Start another Run after every unintentional Service exit.
    Always,
}

impl Default for RestartPolicy {
    fn default() -> (r: Self)
        ensures
            r == RestartPolicy::Never,
    {
        RestartPolicy::Never
    }
}

impl RestartPolicy {
    /// The configuration spelling.
    pub open spec fn spelling(self) -> Seq<char> {
        match self {
            RestartPolicy::Never => "never"@,
            RestartPolicy::OnFailure => "on_failure"@,
            RestartPolicy::Always => "always"@,
        }
    }

    /// The policy with this configuration spelling.
    pub open spec fn spelled(value: Seq<char>) -> Option<Self> {
        if value == "never"@ {
            Some(RestartPolicy::Never)
        } else if value == "on_failure"@ {
            Some(RestartPolicy::OnFailure)
        } else if value == "always"@ {
            Some(RestartPolicy::Always)
        } else {
            None
        }
    }

    /// Parse the configuration spelling of this policy.
    pub fn from_label(value: &str) -> (r: Option<Self>)
        ensures
            r == Self::spelled(value@),
    {
        if same_text(value, "never") {
            Some(RestartPolicy::Never)
        } else if same_text(value, "on_failure") {
            Some(RestartPolicy::OnFailure)
        } else if same_text(value, "always") {
            Some(RestartPolicy::Always)
        } else {
            None
        }
    }

    /// Return the configuration spelling of this policy.
    pub fn label(self) -> (r: &'static str)
        ensures
            r@ == self.spelling(),
    {
        match self {
            RestartPolicy::Never => "never",
            RestartPolicy::OnFailure => "on_failure",
            RestartPolicy::Always => "always",
        }
    }
}

/// Every policy is read back from its own spelling, and a spelling is read as
/// the one policy it is the spelling of.
pub proof fn restart_policy_spelling_round_trip(policy: RestartPolicy, value: Seq<char>)
    ensures
        RestartPolicy::spelled(policy.spelling()) == Some(policy),
        RestartPolicy::spelled(value) == Some(policy) ==> value == policy.spelling(),
{
    reveal_strlit("never");
    reveal_strlit("on_failure");
    reveal_strlit("always");
    assert("never"@.len() == 5 && "on_failure"@.len() == 10 && "always"@.len() == 6);
}

/// The fixed delay, retry limit, and unhealthy-recovery policy for automatic
/// restarts.
#[derive(Clone, Copy, Debug, PartialEq, Eq, Structural)]
pub struct RestartConfig {
    pub policy: RestartPolicy,
    pub backoff: Duration,
    /// The number of automatic retries allowed after the initial Run.
    pub max_restarts: u32,
    /// Whether a liveness failure should stop the current Run and schedule a
    /// controlled automatic restart.
    pub on_unhealthy: bool,
}

/// The default number of automatic retries after the initial Run.
pub const DEFAULT_MAX_RESTARTS: u32 = 5;

impl RestartConfig {
    /// The configuration of a Process that names no restart settings.
    pub open spec fn standard() -> Self {
        RestartConfig {
            policy: RestartPolicy::Never,
            backoff: Duration { seconds: 2, nanos: 0 },
            max_restarts: DEFAULT_MAX_RESTARTS,
            on_unhealthy: false,
        }
    }
}

impl Default for RestartConfig {
    fn default() -> (r: Self)
        ensures
            r == Self::standard(),
    {
        RestartConfig {
            policy: RestartPolicy::Never,
            backoff: Duration::from_secs(2),
            max_restarts: DEFAULT_MAX_RESTARTS,
            on_unhealthy: false,
        }
    }
}

/// Whether configuration enables a Process at all.
#[derive(Clone, Copy, Debug, PartialEq, Eq, Structural)]
pub enum Enabled {
    Yes,
    /// The Process stays visible but cannot start.
    No,
}

impl Enabled {
    pub fn flag(value: bool) -> (r: Self)
        ensures
            r == (if value { Enabled::Yes } else { Enabled::No }),
    {
        if value {
            Enabled::Yes
        } else {
            Enabled::No
        }
    }
}

/// Exactly one command form for one Process. The two forms are mutually
/// exclusive.
#[derive(Clone, Debug, PartialEq, Eq)]
pub enum CommandForm {
    /// Run `program` with `args` directly, without shell parsing.
    Direct { program: String, args: Vec<String> },
    /// Run `text` through the user's shell.
    Shell { text: String },
}

/// A command as character sequences.
pub enum CommandView {
    Direct { program: Seq<char>, args: Seq<Seq<char>> },
    Shell { text: Seq<char> },
}

impl View for CommandForm {
    type V = CommandView;

    open spec fn view(&self) -> CommandView {
        match *self {
            CommandForm::Direct { program, args } => CommandView::Direct {
                program: program@,
                args: texts(args@),
            },
            CommandForm::Shell { text } => CommandView::Shell { text: text@ },
        }
    }
}

/// The program and the arguments that run a command under a shell policy.
pub open spec fn launch_words(command: CommandView, shell: ShellView) -> (Seq<char>, Seq<Seq<char>>) {
    match command {
        CommandView::Direct { program, args } => (program, args),
        CommandView::Shell { text } => (shell.program, shell.args.push(text)),
    }
}

impl CommandForm {
    /// Resolve this validated command with the Project's shell policy.
    pub fn resolve(&self, shell: &ShellConfig) -> (r: (String, Vec<String>))
        ensures
            (r.0@, texts(r.1@)) == launch_words(self@, shell@),
    {
        match self {
            CommandForm::Direct { program, args } => {
                let copy = args.clone();
                proof {
                    assert(copy@ =~= args@);
                }
                (program.clone(), copy)
            },
            CommandForm::Shell { text } => {
                let mut words = shell.args.clone();
                proof {
                    assert(words@ =~= shell.args@);
                }
                words.push(text.clone());
                proof {
                    assert(texts(words@) =~= texts(shell.args@).push(text@));
                }
                (shell.program.clone(), words)
            },
        }
    }

    /// A copy with the same words.
    pub fn duplicate(&self) -> (r: Self)
        ensures
            r@ == self@,
    {
        match self {
            CommandForm::Direct { program, args } => {
                let copy = args.clone();
                proof {
                    assert(copy@ =~= args@);
                }
                CommandForm::Direct { program: program.clone(), args: copy }
            },
            CommandForm::Shell { text } => CommandForm::Shell { text: text.clone() },
        }
    }
}

/// The terminal transport for one Process's Runs.
#[derive(Clone, Copy, Debug, PartialEq, Eq, Structural)]
pub enum TerminalMode {
    /// Separate stdout and stderr pipes without terminal semantics.
    Pipe,
    /// A pseudo-terminal owned by each Run.
    Pty,
}

/// Whether a Process may receive keyboard input from Stackhand.
///
/// Terminal allocation and input policy stay separate: a PTY-mode Process
/// can have colors without receiving keys.
#[derive(Clone, Copy, Debug, PartialEq, Eq, Structural)]
pub enum InputPolicy {
    /// Never deliver child input to this Process.
    Disabled,
    /// Deliver input only while this Process is selected and focused.
    Focused,
}

impl Default for InputPolicy {
    fn default() -> (r: Self)
        ensures
            r == InputPolicy::Disabled,
    {
        InputPolicy::Disabled
    }
}

/// What must hold for one Dependency before a dependent Process starts.
#[derive(Clone, Copy, Debug, PartialEq, Eq, Structural)]
pub enum DependencyCondition {
    /// The dependency Process has an active Run that is Starting or Running.
    Started,
    /// The dependency Service has an active Run whose readiness probe has
    /// passed. Valid only when the dependency Process is a Service.
    Ready,
    /// The dependency One-shot's latest scheduled Run has ended.
    /// Valid only when the dependency Process is a One-shot.
    Exited,
    /// The dependency One-shot's latest completed Run exited with an accepted
    /// success code. Valid only when the dependency Process is a One-shot.
    CompletedSuccessfully,
}

impl DependencyCondition {
    /// The configuration spelling.
    pub open spec fn spelling(self) -> Seq<char> {
        match self {
            DependencyCondition::Started => "started"@,
            DependencyCondition::Ready => "ready"@,
            DependencyCondition::Exited => "exited"@,
            DependencyCondition::CompletedSuccessfully => "completed_successfully"@,
        }
    }

    /// Whether a Dependency on a Process of this kind may use the condition.
    pub open spec fn fits(self, kind: ProcessKind) -> bool {
        match self {
            DependencyCondition::Started => true,
            DependencyCondition::Ready => kind == ProcessKind::Service,
            DependencyCondition::Exited | DependencyCondition::CompletedSuccessfully => kind
                == ProcessKind::OneShot,
        }
    }

    /// The configuration spelling of this condition.
    pub fn label(self) -> (r: &'static str)
        ensures
            r@ == self.spelling(),
    {
        match self {
            DependencyCondition::Started => "started",
            DependencyCondition::Ready => "ready",
            DependencyCondition::Exited => "exited",
            DependencyCondition::CompletedSuccessfully => "completed_successfully",
        }
    }

    /// Whether a Dependency on a Process of this kind may use the condition.
    pub fn fits_kind(self, kind: ProcessKind) -> (r: bool)
        ensures
            r == self.fits(kind),
    {
        match self {
            DependencyCondition::Started => true,
            DependencyCondition::Ready => kind == ProcessKind::Service,
            DependencyCondition::Exited => kind == ProcessKind::OneShot,
            DependencyCondition::CompletedSuccessfully => kind == ProcessKind::OneShot,
        }
    }
}

/// One bounded network target for a leaf readiness check.
#[derive(Clone, Debug, PartialEq, Eq)]
pub enum ReadinessProbe {
    /// A TCP connection must succeed against this endpoint.
    Tcp { host: String, port: u16 },
    /// An HTTP GET must return a successful 2xx status from this endpoint,
    /// parsed from the configured URL at configuration time. Redirects are
    /// never followed.
    Http {
        host: String,
        port: u16,
        /// The request path and any query, always starting with `/`.
        path: String,
    },
    /// Run one validated direct or shell command without a PTY. The optional
    /// working directory and environment entries override the Process values.
    Exec {
        command: CommandForm,
        working_dir: Option<String>,
        env: Vec<(String, String)>,
        success_exit_codes: Vec<i32>,
    },
    /// Observe the current Run's live output for one literal substring.
    Log { contains: String },
}

/// A probe as mathematical values.
pub enum ProbeView {
    Tcp { host: Seq<char>, port: u16 },
    Http { host: Seq<char>, port: u16, path: Seq<char> },
    Exec {
        command: CommandView,
        working_dir: Option<Seq<char>>,
        env: Seq<(Seq<char>, Seq<char>)>,
        success_exit_codes: Seq<i32>,
    },
    Log { contains: Seq<char> },
}

/// An optional text as characters.
pub open spec fn optional_text(value: Option<String>) -> Option<Seq<char>> {
    match value {
        Some(text) => Some(text@),
        None => None,
    }
}

impl View for ReadinessProbe {
    type V = ProbeView;

    open spec fn view(&self) -> ProbeView {
        match *self {
            ReadinessProbe::Tcp { host, port } => ProbeView::Tcp { host: host@, port },
            ReadinessProbe::Http { host, port, path } => ProbeView::Http {
                host: host@,
                port,
                path: path@,
            },
            ReadinessProbe::Exec { command, working_dir, env, success_exit_codes } => {
                ProbeView::Exec {
                    command: command@,
                    working_dir: optional_text(working_dir),
                    env: pairs(env@),
                    success_exit_codes: success_exit_codes@,
                }
            },
            ReadinessProbe::Log { contains } => ProbeView::Log { contains: contains@ },
        }
    }
}

impl ReadinessProbe {
    /// A copy with the same target.
    pub fn duplicate(&self) -> (r: Self)
        ensures
            r@ == self@,
    {
        match self {
            ReadinessProbe::Tcp { host, port } => ReadinessProbe::Tcp {
                host: host.clone(),
                port: *port,
            },
            ReadinessProbe::Http { host, port, path } => ReadinessProbe::Http {
                host: host.clone(),
                port: *port,
                path: path.clone(),
            },
            ReadinessProbe::Exec { command, working_dir, env, success_exit_codes } => {
                let codes = success_exit_codes.clone();
                proof {
                    assert(codes@ =~= success_exit_codes@);
                }
                ReadinessProbe::Exec {
                    command: command.duplicate(),
                    working_dir: working_dir.clone(),
                    env: duplicate_pairs(env),
                    success_exit_codes: codes,
                }
            },
            ReadinessProbe::Log { contains } => ReadinessProbe::Log { contains: contains.clone() },
        }
    }
}

/// A copy of key and value entries in the same order.
pub fn duplicate_pairs(entries: &Vec<(String, String)>) -> (r: Vec<(String, String)>)
    ensures
        r@ == entries@,
{
    let mut copy: Vec<(String, String)> = Vec::new();
    let mut index: usize = 0;
    while index < entries.len()
        invariant
            index <= entries.len(),
            copy@ == entries@.take(index as int),
        decreases entries.len() - index,
    {
        copy.push((entries[index].0.clone(), entries[index].1.clone()));
        index = index + 1;
        proof {
            assert(entries@.take(index as int) =~= entries@.take(index - 1).push(
                entries@[index - 1],
            ));
        }
    }
    proof {
        assert(entries@.take(index as int) =~= entries@);
    }
    copy
}

/// Scheduling and threshold policy for one leaf readiness check.
#[derive(Clone, Debug, PartialEq, Eq)]
pub struct ReadinessCheck {
    pub probe: ReadinessProbe,
    /// How long to wait after spawn before the first attempt.
    pub initial_delay: Duration,
    /// How long after an attempt completes before the next one may run.
    pub interval: Duration,
    /// How long one attempt may take before it fails as timed out.
    pub timeout: Duration,
    /// Consecutive passing attempts required to become ready.
    pub success_threshold: u32,
    /// Consecutive failing attempts required after readiness to become
    /// failing.
    pub failure_threshold: u32,
}

/// A check as mathematical values.
pub struct CheckView {
    pub probe: ProbeView,
    pub initial_delay: Duration,
    pub interval: Duration,
    pub timeout: Duration,
    pub success_threshold: u32,
    pub failure_threshold: u32,
}

impl View for ReadinessCheck {
    type V = CheckView;

    open spec fn view(&self) -> CheckView {
        CheckView {
            probe: self.probe@,
            initial_delay: self.initial_delay,
            interval: self.interval,
            timeout: self.timeout,
            success_threshold: self.success_threshold,
            failure_threshold: self.failure_threshold,
        }
    }
}

/// Checks as mathematical values.
pub open spec fn check_views(checks: Seq<ReadinessCheck>) -> Seq<CheckView> {
    checks.map_values(|check: ReadinessCheck| check@)
}

/// A copy of checks in the same order.
pub fn duplicate_checks(checks: &Vec<ReadinessCheck>) -> (r: Vec<ReadinessCheck>)
    ensures
        check_views(r@) == check_views(checks@),
{
    let mut copy: Vec<ReadinessCheck> = Vec::new();
    let mut index: usize = 0;
    while index < checks.len()
        invariant
            index <= checks.len(),
            check_views(copy@) == check_views(checks@).take(index as int),
        decreases checks.len() - index,
    {
        let check = &checks[index];
        let copied = ReadinessCheck {
            probe: check.probe.duplicate(),
            initial_delay: check.initial_delay,
            interval: check.interval,
            timeout: check.timeout,
            success_threshold: check.success_threshold,
            failure_threshold: check.failure_threshold,
        };
        let ghost earlier = copy@;
        copy.push(copied);
        index = index + 1;
        proof {
            assert(check_views(copy@) =~= check_views(earlier).push(copied@));
            assert(check_views(checks@).take(index as int) =~= check_views(checks@).take(
                index - 1,
            ).push(check@));
        }
    }
    proof {
        assert(check_views(checks@).take(index as int) =~= check_views(checks@));
    }
    copy
}

/// The readiness policy of one Service. A direct check has one leaf in
/// `checks`; an `all` check has one independently scheduled leaf per child.
#[derive(Clone, Debug, PartialEq, Eq)]
pub struct ReadinessConfig {
    pub checks: Vec<ReadinessCheck>,
    /// Optional deadline for the complete readiness policy to pass after
    /// spawn. This is one composite deadline, not one deadline per child.
    pub startup_timeout: Option<Duration>,
}

/// A readiness policy as mathematical values.
pub struct ReadinessView {
    pub checks: Seq<CheckView>,
    pub startup_timeout: Option<Duration>,
}

impl View for ReadinessConfig {
    type V = ReadinessView;

    open spec fn view(&self) -> ReadinessView {
        ReadinessView { checks: check_views(self.checks@), startup_timeout: self.startup_timeout }
    }
}

/// The ongoing health policy of one Service. It uses the same leaf probe
/// forms as readiness but has no startup deadline.
#[derive(Clone, Debug, PartialEq, Eq)]
pub struct LivenessConfig {
    pub checks: Vec<ReadinessCheck>,
}

impl View for LivenessConfig {
    type V = Seq<CheckView>;

    open spec fn view(&self) -> Seq<CheckView> {
        check_views(self.checks@)
    }
}

/// One startup Dependency of one Process.
#[derive(Clone, Debug, PartialEq, Eq)]
pub struct DependencySpec {
    pub name: String,
    pub condition: DependencyCondition,
}

impl View for DependencySpec {
    type V = (Seq<char>, DependencyCondition);

    open spec fn view(&self) -> (Seq<char>, DependencyCondition) {
        (self.name@, self.condition)
    }
}

/// Dependencies as mathematical values.
pub open spec fn dependency_views(
    dependencies: Seq<DependencySpec>,
) -> Seq<(Seq<char>, DependencyCondition)> {
    dependencies.map_values(|dependency: DependencySpec| dependency@)
}

/// The launcher used for shell-expression commands in one Project.
#[derive(Clone, Debug, PartialEq, Eq)]
pub struct ShellConfig {
    /// The interpreter executable, for example `/bin/sh` or `/bin/bash`.
    pub program: String,
    /// Arguments placed before the shell expression.
    pub args: Vec<String>,
}

/// A launcher as character sequences.
pub struct ShellView {
    pub program: Seq<char>,
    pub args: Seq<Seq<char>>,
}

impl View for ShellConfig {
    type V = ShellView;

    open spec fn view(&self) -> ShellView {
        ShellView { program: self.program@, args: texts(self.args@) }
    }
}

impl ShellConfig {
    /// The launcher of a Project that names none.
    pub open spec fn standard() -> ShellView {
        ShellView { program: "/bin/sh"@, args: seq!["-c"@] }
    }
}

impl Default for ShellConfig {
    fn default() -> (r: Self)
        ensures
            r@ == Self::standard(),
    {
        let mut args: Vec<String> = Vec::new();
        args.push("-c".to_owned());
        proof {
            assert(texts(args@) =~= seq!["-c"@]);
        }
        ShellConfig { program: "/bin/sh".to_owned(), args }
    }
}

/// One configured Process as it will actually run.
#[derive(Clone, Debug, PartialEq, Eq)]
pub struct ProcessSpec {
    pub name: String,
    pub kind: ProcessKind,
    pub enabled: Enabled,
    pub autostart: Autostart,
    /// Exit codes that count as success for a One-shot Run.
    pub success_exit_codes: Vec<i32>,
    pub command: CommandForm,
    /// Absolute working directory. Relative paths are resolved by
    /// configuration before this model exists.
    pub working_dir: String,
    /// Environment values that replace inherited values for this Process.
    pub env: Vec<(String, String)>,
    /// Environment keys removed from the inherited parent environment.
    pub env_remove: Vec<String>,
    pub terminal_mode: TerminalMode,
    /// Whether keys reach the Process while its console has focus.
    pub input_policy: InputPolicy,
    /// Startup Dependencies. A Dependency is a startup relationship only;
    /// it never couples lifetimes after the dependent starts.
    pub dependencies: Vec<DependencySpec>,
    /// When set, the Service stays Starting until this probe passes. Valid
    /// on Services only.
    pub readiness: Option<ReadinessConfig>,
    /// When set, the Service is checked after it first becomes effectively
    /// ready. Valid on Services only.
    pub liveness: Option<LivenessConfig>,
    /// Policy for restarting a failed or unexpectedly ended Run.
    pub restart: RestartConfig,
}

/// A Process as mathematical values.
pub struct ProcessView {
    pub name: Seq<char>,
    pub kind: ProcessKind,
    pub enabled: Enabled,
    pub autostart: Autostart,
    pub success_exit_codes: Seq<i32>,
    pub command: CommandView,
    pub working_dir: Seq<char>,
    pub env: Seq<(Seq<char>, Seq<char>)>,
    pub env_remove: Seq<Seq<char>>,
    pub terminal_mode: TerminalMode,
    pub input_policy: InputPolicy,
    pub dependencies: Seq<(Seq<char>, DependencyCondition)>,
    pub readiness: Option<ReadinessView>,
    pub liveness: Option<Seq<CheckView>>,
    pub restart: RestartConfig,
}

impl View for ProcessSpec {
    type V = ProcessView;

    open spec fn view(&self) -> ProcessView {
        ProcessView {
            name: self.name@,
            kind: self.kind,
            enabled: self.enabled,
            autostart: self.autostart,
            success_exit_codes: self.success_exit_codes@,
            command: self.command@,
            working_dir: self.working_dir@,
            env: pairs(self.env@),
            env_remove: texts(self.env_remove@),
            terminal_mode: self.terminal_mode,
            input_policy: self.input_policy,
            dependencies: dependency_views(self.dependencies@),
            readiness: match self.readiness {
                Some(readiness) => Some(readiness@),
                None => None,
            },
            liveness: match self.liveness {
                Some(liveness) => Some(liveness@),
                None => None,
            },
            restart: self.restart,
        }
    }
}

/// Processes as mathematical values.
pub open spec fn process_views(processes: Seq<ProcessSpec>) -> Seq<ProcessView> {
    processes.map_values(|process: ProcessSpec| process@)
}

impl ProcessSpec {
    /// A copy with the same configuration.
    pub fn duplicate(&self) -> (r: Self)
        ensures
            r@ == self@,
    {
        let success_exit_codes = self.success_exit_codes.clone();
        let env_remove = self.env_remove.clone();
        let mut dependencies: Vec<DependencySpec> = Vec::new();
        let mut index: usize = 0;
        while index < self.dependencies.len()
            invariant
                index <= self.dependencies.len(),
                dependencies@ == self.dependencies@.take(index as int),
            decreases self.dependencies.len() - index,
        {
            let dependency = &self.dependencies[index];
            dependencies.push(
                DependencySpec {
                    name: dependency.name.clone(),
                    condition: dependency.condition,
                },
            );
            index = index + 1;
            proof {
                assert(self.dependencies@.take(index as int) =~= self.dependencies@.take(
                    index - 1,
                ).push(*dependency));
            }
        }
        let readiness = match &self.readiness {
            Some(readiness) => Some(
                ReadinessConfig {
                    checks: duplicate_checks(&readiness.checks),
                    startup_timeout: readiness.startup_timeout,
                },
            ),
            None => None,
        };
        let liveness = match &self.liveness {
            Some(liveness) => Some(LivenessConfig { checks: duplicate_checks(&liveness.checks) }),
            None => None,
        };
        proof {
            assert(success_exit_codes@ =~= self.success_exit_codes@);
            assert(env_remove@ =~= self.env_remove@);
            assert(dependencies@ =~= self.dependencies@);
        }
        ProcessSpec {
            name: self.name.clone(),
            kind: self.kind,
            enabled: self.enabled,
            autostart: self.autostart,
            success_exit_codes,
            command: self.command.duplicate(),
            working_dir: self.working_dir.clone(),
            env: duplicate_pairs(&self.env),
            env_remove,
            terminal_mode: self.terminal_mode,
            input_policy: self.input_policy,
            dependencies,
            readiness,
            liveness,
            restart: self.restart,
        }
    }
}

} // verus!
