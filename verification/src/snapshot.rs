//! Immutable facts about one running Project, as the Supervisor reports them.

use vstd::prelude::*;

use crate::model::{ProcessKind, TerminalMode};
use crate::text::same_text;

verus! {

/// The stable identity of one Process.
#[derive(Clone, Copy, Debug, PartialEq, Eq, Structural)]
pub struct ProcessId {
    pub index: u32,
}

impl ProcessId {
    /// The identity with an index.
    pub fn new(index: u32) -> (r: Self)
        ensures
            r == (ProcessId { index }),
    {
        ProcessId { index }
    }
}

/// What the user wants of a Process.
#[derive(Clone, Copy, Debug, PartialEq, Eq, Structural)]
pub enum DesiredState {
    Running,
    Stopped,
}

/// The lifecycle state of a Process.
#[derive(Clone, Copy, Debug, PartialEq, Eq, Structural)]
pub enum Lifecycle {
    Idle,
    Waiting,
    Starting,
    Running,
    Stopping,
    Stopped,
    RestartBackoff,
    Done,
}

/// Why a Process counts as failed.
#[derive(Clone, Copy, Debug, PartialEq, Eq, Structural)]
pub enum FailureKind {
    ProcessExit,
    Readiness,
    Liveness,
    RestartLimit,
    Shutdown,
}

/// Why a Process failed, in short.
#[derive(Clone, Debug, PartialEq, Eq)]
pub struct FailureSummary {
    pub kind: FailureKind,
    pub detail: String,
}

/// The form of a check.
#[derive(Clone, Copy, Debug, PartialEq, Eq, Structural)]
pub enum CheckKind {
    Tcp,
    Http,
    Exec,
    Log,
    All,
}

/// The latest result of a check.
#[derive(Clone, Copy, Debug, PartialEq, Eq, Structural)]
pub enum CheckState {
    Pending,
    Passing,
    Failing,
}

/// One leaf of a composite check.
#[derive(Clone, Copy, Debug, PartialEq, Eq, Structural)]
pub struct ChildCheck {
    pub kind: CheckKind,
    pub state: CheckState,
}

/// The state of a readiness or liveness policy.
#[derive(Clone, Debug, PartialEq, Eq)]
pub struct CheckStatus {
    pub kind: CheckKind,
    pub state: CheckState,
    pub attempts: u64,
    pub consecutive_successes: u32,
    pub consecutive_failures: u32,
    pub last_error: Option<String>,
    pub elapsed_ms: u64,
    pub children: Vec<ChildCheck>,
}

/// The sampled resource use of a Run.
#[derive(Clone, Debug, PartialEq, Eq)]
pub struct Metrics {
    /// The Run that was sampled.
    pub run_id: u64,
    /// The CPU share as it is shown.
    pub cpu: String,
    pub rss_kib: u64,
    /// Whether the sample may miss descendants.
    pub best_effort: bool,
}

/// An automatic restart that waits for its time.
#[derive(Clone, Debug, PartialEq, Eq)]
pub struct RestartBackoffStatus {
    pub reason: String,
    pub next_attempt_at_ms: u64,
}

/// The automatic retries of a Process.
#[derive(Clone, Copy, Debug, PartialEq, Eq, Structural)]
pub struct RestartBudgetStatus {
    pub automatic_retries_used: u32,
    pub max_restarts: u32,
    pub exhausted: bool,
}

/// Who asked for a Run.
#[derive(Clone, Copy, Debug, PartialEq, Eq, Structural)]
pub enum RunTrigger {
    Autostart,
    Manual,
    Restart,
    Rerun,
    Automatic,
}

/// How a Run ended.
#[derive(Clone, Copy, Debug, PartialEq, Eq, Structural)]
pub enum RunExit {
    Success,
    Failed { code: Option<i32> },
    Stopped,
}

/// One finished Run.
#[derive(Clone, Copy, Debug, PartialEq, Eq, Structural)]
pub struct RunSummary {
    pub run_id: u64,
    pub trigger: RunTrigger,
    pub exit: RunExit,
    pub exit_code: Option<i32>,
    /// Whether the user asked for the end.
    pub intentional_stop: bool,
}

/// Everything that is known of one Process.
#[derive(Clone, Debug, PartialEq, Eq)]
pub struct ProcessSnapshot {
    pub process_id: ProcessId,
    pub name: String,
    pub group: Option<String>,
    pub kind: ProcessKind,
    pub enabled: bool,
    pub autostart: bool,
    pub input_focused: bool,
    pub desired: DesiredState,
    pub lifecycle: Lifecycle,
    pub terminal_mode: TerminalMode,
    pub current_run: Option<u64>,
    pub current_profile: Option<String>,
    pub next_profile: Option<String>,
    pub root_pid: Option<u32>,
    pub run_started_at_ms: Option<u64>,
    pub failure: Option<FailureSummary>,
    pub metrics: Option<Metrics>,
    pub listening_ports: Option<Vec<u16>>,
    pub blocked_reason: Option<String>,
    pub readiness: Option<CheckStatus>,
    pub liveness: Option<CheckStatus>,
    pub restart_backoff: Option<RestartBackoffStatus>,
    pub automatic_restart_budget: RestartBudgetStatus,
    /// Finished Runs, latest first.
    pub recent_runs: Vec<RunSummary>,
}

/// A Process that could not be stopped cleanly.
#[derive(Clone, Debug, PartialEq, Eq)]
pub struct ProcessShutdownFailure {
    pub process: String,
    pub detail: String,
    pub remaining_pids: Vec<u32>,
}

/// The progress of a Project shutdown.
#[derive(Clone, Debug, PartialEq, Eq)]
pub struct ProjectShutdownSnapshot {
    pub complete: bool,
    pub timed_out: bool,
    pub failures: Vec<ProcessShutdownFailure>,
}

/// Everything that is known of one Project.
#[derive(Clone, Debug, PartialEq, Eq)]
pub struct ProjectSnapshot {
    pub processes: Vec<ProcessSnapshot>,
    pub base_profile_name: String,
    pub selected_profile: Option<String>,
    pub available_profiles: Vec<String>,
    pub shutdown: Option<ProjectShutdownSnapshot>,
    pub now_ms: u64,
}

/// The first Process with a name, from position `from` on.
pub open spec fn named_from(
    processes: Seq<ProcessSnapshot>,
    name: Seq<char>,
    from: int,
) -> Option<int>
    decreases processes.len() - from,
{
    if from < 0 || from >= processes.len() {
        None
    } else if processes[from].name@ == name {
        Some(from)
    } else {
        named_from(processes, name, from + 1)
    }
}

impl ProjectSnapshot {
    /// The Process with a name.
    pub open spec fn find(&self, name: Seq<char>) -> Option<ProcessSnapshot> {
        match named_from(self.processes@, name, 0) {
            Some(index) => Some(self.processes@[index]),
            None => None,
        }
    }

    /// The Process with a name.
    pub fn named(&self, name: &str) -> (r: Option<&ProcessSnapshot>)
        ensures
            (match r {
                Some(process) => Some(*process),
                None => None,
            }) == self.find(name@),
    {
        let mut index: usize = 0;
        while index < self.processes.len()
            invariant
                index <= self.processes.len(),
                named_from(self.processes@, name@, 0) == named_from(
                    self.processes@,
                    name@,
                    index as int,
                ),
            decreases self.processes.len() - index,
        {
            if same_text(self.processes[index].name.as_str(), name) {
                return Some(&self.processes[index]);
            }
            index = index + 1;
        }
        None
    }
}

/// An optional text as mathematical values.
pub open spec fn text_option(text: Option<String>) -> Option<Seq<char>> {
    match text {
        Some(text) => Some(text@),
        None => None,
    }
}

/// Whether two failures say the same.
pub open spec fn failures_alike(a: Option<FailureSummary>, b: Option<FailureSummary>) -> bool {
    match (a, b) {
        (Some(a), Some(b)) => a.kind == b.kind && a.detail@ == b.detail@,
        (None, None) => true,
        _ => false,
    }
}

/// Whether two samples show the same.
pub open spec fn metrics_alike(a: Option<Metrics>, b: Option<Metrics>) -> bool {
    match (a, b) {
        (Some(a), Some(b)) => a.run_id == b.run_id && a.cpu@ == b.cpu@ && a.rss_kib == b.rss_kib && a.best_effort
            == b.best_effort,
        (None, None) => true,
        _ => false,
    }
}

/// Whether two lists of ports are the same.
pub open spec fn ports_alike(a: Option<Vec<u16>>, b: Option<Vec<u16>>) -> bool {
    match (a, b) {
        (Some(a), Some(b)) => a@ == b@,
        (None, None) => true,
        _ => false,
    }
}

/// Whether two check states are the same.
pub open spec fn checks_alike(a: Option<CheckStatus>, b: Option<CheckStatus>) -> bool {
    match (a, b) {
        (Some(a), Some(b)) => {
            &&& a.kind == b.kind
            &&& a.state == b.state
            &&& a.attempts == b.attempts
            &&& a.consecutive_successes == b.consecutive_successes
            &&& a.consecutive_failures == b.consecutive_failures
            &&& text_option(a.last_error) == text_option(b.last_error)
            &&& a.elapsed_ms == b.elapsed_ms
            &&& a.children@ == b.children@
        },
        (None, None) => true,
        _ => false,
    }
}

/// Whether two waiting restarts are the same.
pub open spec fn backoffs_alike(
    a: Option<RestartBackoffStatus>,
    b: Option<RestartBackoffStatus>,
) -> bool {
    match (a, b) {
        (Some(a), Some(b)) => a.reason@ == b.reason@ && a.next_attempt_at_ms
            == b.next_attempt_at_ms,
        (None, None) => true,
        _ => false,
    }
}

/// Whether everything that is known of two Processes is the same.
pub open spec fn process_alike(a: ProcessSnapshot, b: ProcessSnapshot) -> bool {
    &&& a.process_id == b.process_id
    &&& a.name@ == b.name@
    &&& text_option(a.group) == text_option(b.group)
    &&& a.kind == b.kind
    &&& a.enabled == b.enabled
    &&& a.autostart == b.autostart
    &&& a.input_focused == b.input_focused
    &&& a.desired == b.desired
    &&& a.lifecycle == b.lifecycle
    &&& a.terminal_mode == b.terminal_mode
    &&& a.current_run == b.current_run
    &&& text_option(a.current_profile) == text_option(b.current_profile)
    &&& text_option(a.next_profile) == text_option(b.next_profile)
    &&& a.root_pid == b.root_pid
    &&& a.run_started_at_ms == b.run_started_at_ms
    &&& failures_alike(a.failure, b.failure)
    &&& metrics_alike(a.metrics, b.metrics)
    &&& ports_alike(a.listening_ports, b.listening_ports)
    &&& text_option(a.blocked_reason) == text_option(b.blocked_reason)
    &&& checks_alike(a.readiness, b.readiness)
    &&& checks_alike(a.liveness, b.liveness)
    &&& backoffs_alike(a.restart_backoff, b.restart_backoff)
    &&& a.automatic_restart_budget == b.automatic_restart_budget
    &&& a.recent_runs@ == b.recent_runs@
}

/// Whether everything that is known of two lists of Processes is the same.
pub open spec fn processes_alike(a: Seq<ProcessSnapshot>, b: Seq<ProcessSnapshot>) -> bool {
    &&& a.len() == b.len()
    &&& forall|i: int| 0 <= i < a.len() ==> process_alike(#[trigger] a[i], b[i])
}

fn same_option_text(a: &Option<String>, b: &Option<String>) -> (r: bool)
    ensures
        r == (text_option(*a) == text_option(*b)),
{
    match (a, b) {
        (Some(a), Some(b)) => same_text(a.as_str(), b.as_str()),
        (None, None) => true,
        _ => false,
    }
}

fn same_ports(a: &Option<Vec<u16>>, b: &Option<Vec<u16>>) -> (r: bool)
    ensures
        r == ports_alike(*a, *b),
{
    match (a, b) {
        (Some(a), Some(b)) => same_numbers(a, b),
        (None, None) => true,
        _ => false,
    }
}

fn same_numbers(a: &Vec<u16>, b: &Vec<u16>) -> (r: bool)
    ensures
        r == (a@ == b@),
{
    if a.len() != b.len() {
        return false;
    }
    let mut index: usize = 0;
    while index < a.len()
        invariant
            index <= a.len(),
            a.len() == b.len(),
            forall|i: int| 0 <= i < index ==> a@[i] == b@[i],
        decreases a.len() - index,
    {
        if a[index] != b[index] {
            return false;
        }
        index = index + 1;
    }
    proof {
        assert(a@ =~= b@);
    }
    true
}

fn same_children(a: &Vec<ChildCheck>, b: &Vec<ChildCheck>) -> (r: bool)
    ensures
        r == (a@ == b@),
{
    if a.len() != b.len() {
        return false;
    }
    let mut index: usize = 0;
    while index < a.len()
        invariant
            index <= a.len(),
            a.len() == b.len(),
            forall|i: int| 0 <= i < index ==> a@[i] == b@[i],
        decreases a.len() - index,
    {
        if a[index] != b[index] {
            return false;
        }
        index = index + 1;
    }
    proof {
        assert(a@ =~= b@);
    }
    true
}

fn same_runs(a: &Vec<RunSummary>, b: &Vec<RunSummary>) -> (r: bool)
    ensures
        r == (a@ == b@),
{
    if a.len() != b.len() {
        return false;
    }
    let mut index: usize = 0;
    while index < a.len()
        invariant
            index <= a.len(),
            a.len() == b.len(),
            forall|i: int| 0 <= i < index ==> a@[i] == b@[i],
        decreases a.len() - index,
    {
        if a[index] != b[index] {
            return false;
        }
        index = index + 1;
    }
    proof {
        assert(a@ =~= b@);
    }
    true
}

fn same_failure(a: &Option<FailureSummary>, b: &Option<FailureSummary>) -> (r: bool)
    ensures
        r == failures_alike(*a, *b),
{
    match (a, b) {
        (Some(a), Some(b)) => a.kind == b.kind && same_text(a.detail.as_str(), b.detail.as_str()),
        (None, None) => true,
        _ => false,
    }
}

fn same_metrics(a: &Option<Metrics>, b: &Option<Metrics>) -> (r: bool)
    ensures
        r == metrics_alike(*a, *b),
{
    match (a, b) {
        (Some(a), Some(b)) => a.run_id == b.run_id && same_text(a.cpu.as_str(), b.cpu.as_str())
            && a.rss_kib == b.rss_kib
            && a.best_effort == b.best_effort,
        (None, None) => true,
        _ => false,
    }
}

fn same_check(a: &Option<CheckStatus>, b: &Option<CheckStatus>) -> (r: bool)
    ensures
        r == checks_alike(*a, *b),
{
    match (a, b) {
        (Some(a), Some(b)) => a.kind == b.kind && a.state == b.state && a.attempts == b.attempts
            && a.consecutive_successes == b.consecutive_successes && a.consecutive_failures
            == b.consecutive_failures && same_option_text(&a.last_error, &b.last_error)
            && a.elapsed_ms == b.elapsed_ms && same_children(&a.children, &b.children),
        (None, None) => true,
        _ => false,
    }
}

fn same_backoff(a: &Option<RestartBackoffStatus>, b: &Option<RestartBackoffStatus>) -> (r: bool)
    ensures
        r == backoffs_alike(*a, *b),
{
    match (a, b) {
        (Some(a), Some(b)) => same_text(a.reason.as_str(), b.reason.as_str())
            && a.next_attempt_at_ms == b.next_attempt_at_ms,
        (None, None) => true,
        _ => false,
    }
}

/// Whether everything that is known of two Processes is the same.
pub fn same_process(a: &ProcessSnapshot, b: &ProcessSnapshot) -> (r: bool)
    ensures
        r == process_alike(*a, *b),
{
    a.process_id == b.process_id && same_text(a.name.as_str(), b.name.as_str())
        && same_option_text(&a.group, &b.group) && a.kind == b.kind && a.enabled == b.enabled
        && a.autostart == b.autostart && a.input_focused == b.input_focused && a.desired
        == b.desired && a.lifecycle == b.lifecycle && a.terminal_mode == b.terminal_mode
        && a.current_run == b.current_run && same_option_text(
        &a.current_profile,
        &b.current_profile,
    ) && same_option_text(&a.next_profile, &b.next_profile) && a.root_pid == b.root_pid
        && a.run_started_at_ms == b.run_started_at_ms && same_failure(&a.failure, &b.failure)
        && same_metrics(&a.metrics, &b.metrics) && same_ports(
        &a.listening_ports,
        &b.listening_ports,
    ) && same_option_text(&a.blocked_reason, &b.blocked_reason) && same_check(
        &a.readiness,
        &b.readiness,
    ) && same_check(&a.liveness, &b.liveness) && same_backoff(
        &a.restart_backoff,
        &b.restart_backoff,
    ) && a.automatic_restart_budget == b.automatic_restart_budget && same_runs(
        &a.recent_runs,
        &b.recent_runs,
    )
}

/// Whether everything that is known of two lists of Processes is the same.
pub fn same_processes(a: &Vec<ProcessSnapshot>, b: &Vec<ProcessSnapshot>) -> (r: bool)
    ensures
        r == processes_alike(a@, b@),
{
    if a.len() != b.len() {
        return false;
    }
    let mut index: usize = 0;
    while index < a.len()
        invariant
            index <= a.len(),
            a.len() == b.len(),
            forall|i: int| 0 <= i < index ==> process_alike(#[trigger] a@[i], b@[i]),
        decreases a.len() - index,
    {
        if !same_process(&a[index], &b[index]) {
            proof {
                assert(!process_alike(a@[index as int], b@[index as int]));
            }
            return false;
        }
        index = index + 1;
    }
    true
}

} // verus!
