//! The integrated Project fixture: a headless proof of the full user path
//! through configuration, Supervisor, Runs, readiness and liveness checks,
//! output, and controlled shutdown.

use vstd::prelude::*;

use crate::fixtures::checks::{
    backing_off, completed, failed_exit, has_failure, in_state, liveness_passing, mentions, ready,
    running, says, says_first, startup_timed_out, waiting, Verdict,
};
use crate::config::load::ResolutionRequest;
use crate::fixtures::retained::OutputStream;
use crate::scan::contains;
use crate::snapshot::{
    CheckKind, CheckState, ChildCheck, DesiredState, FailureKind, Lifecycle, ProcessId,
    ProcessSnapshot, ProjectSnapshot, RunTrigger,
};
use crate::text::{concat2, concat3, decimal_u64};

#[allow(unused_imports)]
use crate::fixtures::checks::{
    backs_off, failed_with, has_failed_exit, has_startup_timeout, is_completed, is_failing,
    is_live, is_passing, is_ready, runs, waits, VerdictView,
};
#[allow(unused_imports)]
use crate::config::load::RequestView;
#[allow(unused_imports)]
use crate::scan::{begins, holds};
#[allow(unused_imports)]
use crate::text::decimal_text;

verus! {

/// How long the Project may take to start, in seconds.
pub const STARTUP_WAIT: u64 = 20;

/// What stands before the process identity that a descendant reports.
pub const DESCENDANT_PREFIX: &'static str = "fixture-descendant-pid-";

/// How long one transition may take, in seconds.
pub const TRANSITION_WAIT: u64 = 15;

/// How long output may take to arrive, in seconds.
pub const OUTPUT_WAIT: u64 = 10;

/// How long the Project may take to stop, in seconds.
pub const SHUTDOWN_WAIT: u64 = 20;

/// What the proof waits for next.
#[derive(Clone, Copy, Debug, PartialEq, Eq, Structural)]
pub enum SlicePhase {
    Blocked,
    Started,
    /// The output of consoles is proved.
    ConsolesProved,
    /// The output of pipes and of the noisy Process is proved.
    PipesProved,
    /// The Process that did not start in time is gone.
    TimeoutProved,
    ReadinessLost,
    ReadinessBack,
    LivenessLost,
    LivenessBack,
    UnhealthyBackoff,
    UnhealthyRestarted,
    BudgetSpent,
    /// The output of every Run of the budget Process is proved.
    BudgetProved,
    Rerun,
    Finished,
}

/// Where the proof is, and the Runs that it follows.
#[derive(Clone, Copy, Debug, PartialEq, Eq, Structural)]
pub struct Slice {
    pub phase: SlicePhase,
    pub recovering_run: u64,
    pub dependent_run: u64,
    pub liveness_run: u64,
    pub unhealthy_run: u64,
}

/// What the driver does after a phase, before it waits again.
#[derive(Clone, Copy, Debug, PartialEq, Eq, Structural)]
pub enum SliceAction {
    Nothing,
    /// Prove the output of consoles.
    ProveConsoleOutput,
    /// Prove the output of pipes and of the noisy Process.
    ProvePipeOutput,
    /// Prove that a Process that did not start in time left nothing behind.
    ProveTimeoutExit,
    /// Prove that the output of every Run of the budget Process is kept.
    ProveRestartOutput,
    /// Run the failed One-shot again.
    RerunSetup,
    Finish,
}

/// The answer to one snapshot.
#[derive(Clone, Debug, PartialEq, Eq)]
pub enum SliceStep {
    /// The phase is not over.
    Wait,
    /// The proof is over without success.
    Stop(Verdict),
    /// The phase is over.
    Advance { checkpoints: Vec<&'static str>, action: SliceAction },
}

/// The answer to one snapshot as mathematical values.
pub enum SliceStepView {
    Wait,
    Stop(VerdictView),
    Advance { checkpoints: Seq<Seq<char>>, action: SliceAction },
}

/// Words as character sequences.
pub open spec fn words(values: Seq<&'static str>) -> Seq<Seq<char>> {
    values.map_values(|value: &'static str| value@)
}

impl View for SliceStep {
    type V = SliceStepView;

    open spec fn view(&self) -> SliceStepView {
        match *self {
            SliceStep::Wait => SliceStepView::Wait,
            SliceStep::Stop(verdict) => SliceStepView::Stop(verdict@),
            SliceStep::Advance { checkpoints, action } => SliceStepView::Advance {
                checkpoints: words(checkpoints@),
                action,
            },
        }
    }
}

/// A step that fails the fixture.
pub open spec fn failing(message: Seq<char>) -> SliceStepView {
    SliceStepView::Stop(VerdictView::Failed(message))
}

/// A step that could not be made.
pub open spec fn breaking(message: Seq<char>) -> SliceStepView {
    SliceStepView::Stop(VerdictView::Broken(message))
}

/// A step with one checkpoint and an action.
pub open spec fn one_checkpoint(label: Seq<char>, action: SliceAction) -> SliceStepView {
    SliceStepView::Advance { checkpoints: seq![label], action }
}

/// What is said of a Process that the fixture should have.
pub open spec fn undefined(name: Seq<char>) -> Seq<char> {
    "the fixture defines Process '"@ + name + "'"@
}

/// What is said of a Process that should have a Run.
pub open spec fn without_run(name: Seq<char>) -> Seq<char> {
    "Process '"@ + name + "' has no current Run"@
}

/// The current Run of a Process, or why there is none.
pub open spec fn run_reading(snapshot: ProjectSnapshot, name: Seq<char>) -> Result<
    u64,
    VerdictView,
> {
    match snapshot.find(name) {
        None => Err(VerdictView::Broken(undefined(name))),
        Some(process) => match process.current_run {
            Some(run) => Ok(run),
            None => Err(VerdictView::Failed(without_run(name))),
        },
    }
}

/// The current Run of a Process.
pub fn current_run(snapshot: &ProjectSnapshot, name: &str) -> (r: Result<u64, Verdict>)
    ensures
        (match r {
            Ok(run) => Ok(run),
            Err(verdict) => Err(verdict@),
        }) == run_reading(*snapshot, name@),
{
    match snapshot.named(name) {
        None => Err(Verdict::Broken(concat3("the fixture defines Process '", name, "'"))),
        Some(process) => match process.current_run {
            Some(run) => Ok(run),
            None => Err(Verdict::Failed(concat3("Process '", name, "' has no current Run"))),
        },
    }
}

/// One proof of Process output that a driver waits for.
#[derive(Clone, Copy, Debug, PartialEq, Eq)]
pub struct OutputProof {
    pub process_id: ProcessId,
    pub run_id: u64,
    /// The stream of retained output; a console has none.
    pub stream: Option<OutputStream>,
    pub needle: &'static str,
}

/// The proof that the current Run of a Process shows a text.
pub open spec fn proof_reading(
    snapshot: ProjectSnapshot,
    name: Seq<char>,
    stream: Option<OutputStream>,
    needle: &'static str,
) -> Result<OutputProof, VerdictView> {
    match run_reading(snapshot, name) {
        Err(verdict) => Err(verdict),
        Ok(run_id) => Ok(
            OutputProof {
                process_id: snapshot.find(name)->0.process_id,
                run_id,
                stream,
                needle,
            },
        ),
    }
}

fn output_proof(
    snapshot: &ProjectSnapshot,
    name: &str,
    stream: Option<OutputStream>,
    needle: &'static str,
) -> (r: Result<OutputProof, Verdict>)
    ensures
        (match r {
            Ok(found) => Ok(found),
            Err(verdict) => Err(verdict@),
        }) == proof_reading(*snapshot, name@, stream, needle),
{
    let run_id: u64 = match current_run(snapshot, name) {
        Ok(run) => run,
        Err(verdict) => {
            return Err(verdict);
        },
    };
    Ok(
        OutputProof {
            process_id: snapshot.named(name).unwrap().process_id,
            run_id,
            stream,
            needle,
        },
    )
}

/// The proofs of all readings, or the first failure among them.
pub open spec fn all_proofs(readings: Seq<Result<OutputProof, VerdictView>>) -> Result<
    Seq<OutputProof>,
    VerdictView,
>
    decreases readings.len(),
{
    if readings.len() == 0 {
        Ok(Seq::empty())
    } else {
        match all_proofs(readings.drop_last()) {
            Err(verdict) => Err(verdict),
            Ok(proofs) => match readings.last() {
                Err(verdict) => Err(verdict),
                Ok(found) => Ok(proofs.push(found)),
            },
        }
    }
}

/// What the consoles of the fixture show.
pub open spec fn console_readings(snapshot: ProjectSnapshot) -> Seq<
    Result<OutputProof, VerdictView>,
> {
    seq![
        proof_reading(snapshot, "hello"@, None, "fixture-marker"),
        proof_reading(snapshot, "hello"@, None, "fixture-token-stackhand-env-ok"),
        proof_reading(snapshot, "shelled"@, None, "FIXTURE-PIPELINE-LOWER"),
    ]
}

/// What the pipes of the fixture retain.
pub open spec fn pipe_readings(snapshot: ProjectSnapshot) -> Seq<Result<OutputProof, VerdictView>> {
    seq![
        proof_reading(snapshot, "piped"@, Some(OutputStream::Stdout), "fixture-pipe-out"),
        proof_reading(snapshot, "piped"@, Some(OutputStream::Stderr), "fixture-pipe-err"),
    ]
}

/// Proofs or a failure as mathematical values.
pub open spec fn proofs_view(result: Result<Vec<OutputProof>, Verdict>) -> Result<
    Seq<OutputProof>,
    VerdictView,
> {
    match result {
        Ok(proofs) => Ok(proofs@),
        Err(verdict) => Err(verdict@),
    }
}

/// What the consoles of a started fixture must show.
pub fn prove_console_output(snapshot: &ProjectSnapshot) -> (r: Result<Vec<OutputProof>, Verdict>)
    ensures
        proofs_view(r) == all_proofs(console_readings(*snapshot)),
{
    let ghost readings = console_readings(*snapshot);
    proof {
        reveal_with_fuel(all_proofs, 4);
        assert(readings.drop_last() =~= seq![readings[0], readings[1]]);
        assert(readings.drop_last().drop_last() =~= seq![readings[0]]);
        assert(readings.drop_last().drop_last().drop_last() =~= seq![]);
    }
    let marker = match output_proof(snapshot, "hello", None, "fixture-marker") {
        Ok(found) => found,
        Err(verdict) => {
            return Err(verdict);
        },
    };
    let token = match output_proof(snapshot, "hello", None, "fixture-token-stackhand-env-ok") {
        Ok(found) => found,
        Err(verdict) => {
            return Err(verdict);
        },
    };
    let pipeline = match output_proof(snapshot, "shelled", None, "FIXTURE-PIPELINE-LOWER") {
        Ok(found) => found,
        Err(verdict) => {
            return Err(verdict);
        },
    };
    let proofs = vec![marker, token, pipeline];
    proof {
        assert(proofs@ =~= seq![].push(marker).push(token).push(pipeline));
    }
    Ok(proofs)
}

/// What the pipes of a started fixture must retain. The process identity of
/// its descendant follows `DESCENDANT_PREFIX` in the same output.
pub fn prove_pipe_output(snapshot: &ProjectSnapshot) -> (r: Result<Vec<OutputProof>, Verdict>)
    ensures
        proofs_view(r) == all_proofs(pipe_readings(*snapshot)),
{
    let ghost readings = pipe_readings(*snapshot);
    proof {
        reveal_with_fuel(all_proofs, 3);
        assert(readings.drop_last() =~= seq![readings[0]]);
        assert(readings.drop_last().drop_last() =~= seq![]);
    }
    let standard = match output_proof(
        snapshot,
        "piped",
        Some(OutputStream::Stdout),
        "fixture-pipe-out",
    ) {
        Ok(found) => found,
        Err(verdict) => {
            return Err(verdict);
        },
    };
    let failing = match output_proof(
        snapshot,
        "piped",
        Some(OutputStream::Stderr),
        "fixture-pipe-err",
    ) {
        Ok(found) => found,
        Err(verdict) => {
            return Err(verdict);
        },
    };
    let proofs = vec![standard, failing];
    proof {
        assert(proofs@ =~= seq![].push(standard).push(failing));
    }
    Ok(proofs)
}

/// What the latest Run of the direct One-shot must have retained.
pub open spec fn direct_reading(snapshot: ProjectSnapshot) -> Result<OutputProof, VerdictView> {
    match snapshot.find("direct"@) {
        None => Err(VerdictView::Broken(undefined("direct"@))),
        Some(process) => if process.recent_runs@.len() == 0 {
            Err(VerdictView::Failed("the direct One-shot has no Run summary"@))
        } else {
            Ok(
                OutputProof {
                    process_id: process.process_id,
                    run_id: process.recent_runs@[0].run_id,
                    stream: Some(OutputStream::Stdout),
                    needle: "fixture-direct-command",
                },
            )
        },
    }
}

/// What the latest Run of the direct One-shot must have retained.
pub fn prove_direct_output(snapshot: &ProjectSnapshot) -> (r: Result<OutputProof, Verdict>)
    ensures
        (match r {
            Ok(found) => Ok(found),
            Err(verdict) => Err(verdict@),
        }) == direct_reading(*snapshot),
{
    match snapshot.named("direct") {
        None => Err(Verdict::Broken(concat3("the fixture defines Process '", "direct", "'"))),
        Some(process) => if process.recent_runs.len() == 0 {
            Err(Verdict::failed("the direct One-shot has no Run summary"))
        } else {
            Ok(
                OutputProof {
                    process_id: process.process_id,
                    run_id: process.recent_runs[0].run_id,
                    stream: Some(OutputStream::Stdout),
                    needle: "fixture-direct-command",
                },
            )
        },
    }
}

/// Whether a dependent waits, visibly, for a One-shot to complete.
pub open spec fn blocked(snapshot: ProjectSnapshot) -> bool {
    &&& snapshot.find("rerun-dependent"@) matches Some(process)
    &&& process.lifecycle == Lifecycle::Waiting
    &&& process.blocked_reason matches Some(reason)
    &&& reason@ == "rerun-setup: completed_successfully"@
}

fn is_blocked(snapshot: &ProjectSnapshot) -> (r: bool)
    ensures
        r == blocked(*snapshot),
{
    match snapshot.named("rerun-dependent") {
        Some(process) => process.lifecycle == Lifecycle::Waiting && says(
            &process.blocked_reason,
            "rerun-setup: completed_successfully",
        ),
        None => false,
    }
}

/// Whether the first automatic restart of a failing Process is pending.
pub open spec fn pending_restart(snapshot: ProjectSnapshot) -> bool {
    snapshot.find("shutdown-restart"@) matches Some(process) && backs_off(process, "failed Run"@)
        && process.automatic_restart_budget.automatic_retries_used == 0
}

fn is_restart_pending(snapshot: &ProjectSnapshot) -> (r: bool)
    ensures
        r == pending_restart(*snapshot),
{
    match snapshot.named("shutdown-restart") {
        Some(process) => backing_off(process, "failed Run")
            && process.automatic_restart_budget.automatic_retries_used == 0,
        None => false,
    }
}

/// Whether every Process is where a stable start leaves it.
pub open spec fn started(snapshot: ProjectSnapshot) -> bool {
    &&& runs(snapshot, "started-source"@)
    &&& runs(snapshot, "started-dependent"@)
    &&& is_ready(snapshot, "tcp-ready"@, CheckKind::Tcp)
    &&& is_ready(snapshot, "http-ready"@, CheckKind::Http)
    &&& is_ready(snapshot, "exec-ready"@, CheckKind::Exec)
    &&& is_ready(snapshot, "log-ready"@, CheckKind::Log)
    &&& is_ready(snapshot, "all-ready"@, CheckKind::All)
    &&& is_ready(snapshot, "recovering"@, CheckKind::Http)
    &&& runs(snapshot, "ready-dependent"@)
    &&& is_live(snapshot, "liveness-recover"@)
    &&& is_live(snapshot, "liveness-restart"@)
    &&& runs(snapshot, "hello"@)
    &&& runs(snapshot, "shelled"@)
    &&& runs(snapshot, "piped"@)
    &&& runs(snapshot, "noisy"@)
    &&& is_completed(snapshot, "accepted"@, Some(42))
    &&& runs(snapshot, "completed-dependent"@)
    &&& has_failed_exit(snapshot, "exited-source"@, Some(7))
    &&& runs(snapshot, "exited-dependent"@)
    &&& has_failed_exit(snapshot, "rerun-setup"@, Some(7))
    &&& waits(snapshot, "rerun-dependent"@)
    &&& has_startup_timeout(snapshot, "startup-timeout"@)
    &&& pending_restart(snapshot)
}

/// What a stable start asks of a Process.
#[derive(Clone, Copy, Debug, PartialEq, Eq, Structural)]
pub enum StartDemand {
    Running,
    /// Running, with passing readiness checks of a kind.
    Ready(CheckKind),
    /// Running, with a passing liveness check.
    Live,
    /// Done with an exit code.
    Completed(i32),
    /// Stopped by a Run that failed with an exit code.
    FailedExit(i32),
    Waiting,
    /// Stopped because it did not get ready in time.
    StartupTimeout,
}

impl StartDemand {
    /// Whether a Process meets the demand.
    pub open spec fn met(self, snapshot: ProjectSnapshot, name: Seq<char>) -> bool {
        match self {
            StartDemand::Running => runs(snapshot, name),
            StartDemand::Ready(kind) => is_ready(snapshot, name, kind),
            StartDemand::Live => is_live(snapshot, name),
            StartDemand::Completed(code) => is_completed(snapshot, name, Some(code)),
            StartDemand::FailedExit(code) => has_failed_exit(snapshot, name, Some(code)),
            StartDemand::Waiting => waits(snapshot, name),
            StartDemand::StartupTimeout => has_startup_timeout(snapshot, name),
        }
    }

    fn is_met(self, snapshot: &ProjectSnapshot, name: &str) -> (r: bool)
        ensures
            r == self.met(*snapshot, name@),
    {
        match self {
            StartDemand::Running => running(snapshot, name),
            StartDemand::Ready(kind) => ready(snapshot, name, kind),
            StartDemand::Live => liveness_passing(snapshot, name),
            StartDemand::Completed(code) => completed(snapshot, name, Some(code)),
            StartDemand::FailedExit(code) => failed_exit(snapshot, name, Some(code)),
            StartDemand::Waiting => waiting(snapshot, name),
            StartDemand::StartupTimeout => startup_timed_out(snapshot, name),
        }
    }
}

/// What a stable start asks of Processes, in the order in which they are
/// looked at.
pub open spec fn start_demands() -> Seq<(&'static str, StartDemand)> {
    seq![
        ("started-source", StartDemand::Running),
        ("started-dependent", StartDemand::Running),
        ("tcp-ready", StartDemand::Ready(CheckKind::Tcp)),
        ("http-ready", StartDemand::Ready(CheckKind::Http)),
        ("exec-ready", StartDemand::Ready(CheckKind::Exec)),
        ("log-ready", StartDemand::Ready(CheckKind::Log)),
        ("all-ready", StartDemand::Ready(CheckKind::All)),
        ("recovering", StartDemand::Ready(CheckKind::Http)),
        ("ready-dependent", StartDemand::Running),
        ("liveness-recover", StartDemand::Live),
        ("liveness-restart", StartDemand::Live),
        ("hello", StartDemand::Running),
        ("shelled", StartDemand::Running),
        ("piped", StartDemand::Running),
        ("noisy", StartDemand::Running),
        ("accepted", StartDemand::Completed(42)),
        ("completed-dependent", StartDemand::Running),
        ("exited-source", StartDemand::FailedExit(7)),
        ("exited-dependent", StartDemand::Running),
        ("rerun-setup", StartDemand::FailedExit(7)),
        ("rerun-dependent", StartDemand::Waiting),
        ("startup-timeout", StartDemand::StartupTimeout),
    ]
}

/// The name in the first unmet demand, from `from` on.
pub open spec fn first_unmet(
    snapshot: ProjectSnapshot,
    demands: Seq<(&'static str, StartDemand)>,
    from: int,
) -> Option<Seq<char>>
    decreases demands.len() - from,
{
    if from < 0 || from >= demands.len() {
        None
    } else if !demands[from].1.met(snapshot, demands[from].0@) {
        Some(demands[from].0@)
    } else {
        first_unmet(snapshot, demands, from + 1)
    }
}

/// Whether a stable start is reached, or which Process of those that are
/// looked at is missing.
pub open spec fn start_reading(snapshot: ProjectSnapshot) -> Result<bool, Seq<char>> {
    match first_unmet(snapshot, start_demands(), 0) {
        Some(name) => if snapshot.find(name) is None {
            Err(undefined(name))
        } else {
            Ok(false)
        },
        None => Ok(started(snapshot)),
    }
}

fn demands_of_start() -> (r: Vec<(&'static str, StartDemand)>)
    ensures
        r@ == start_demands(),
{
    let demands = vec![
        ("started-source", StartDemand::Running),
        ("started-dependent", StartDemand::Running),
        ("tcp-ready", StartDemand::Ready(CheckKind::Tcp)),
        ("http-ready", StartDemand::Ready(CheckKind::Http)),
        ("exec-ready", StartDemand::Ready(CheckKind::Exec)),
        ("log-ready", StartDemand::Ready(CheckKind::Log)),
        ("all-ready", StartDemand::Ready(CheckKind::All)),
        ("recovering", StartDemand::Ready(CheckKind::Http)),
        ("ready-dependent", StartDemand::Running),
        ("liveness-recover", StartDemand::Live),
        ("liveness-restart", StartDemand::Live),
        ("hello", StartDemand::Running),
        ("shelled", StartDemand::Running),
        ("piped", StartDemand::Running),
        ("noisy", StartDemand::Running),
        ("accepted", StartDemand::Completed(42)),
        ("completed-dependent", StartDemand::Running),
        ("exited-source", StartDemand::FailedExit(7)),
        ("exited-dependent", StartDemand::Running),
        ("rerun-setup", StartDemand::FailedExit(7)),
        ("rerun-dependent", StartDemand::Waiting),
        ("startup-timeout", StartDemand::StartupTimeout),
    ];
    proof {
        assert(demands@ =~= start_demands());
    }
    demands
}

proof fn unmet_demands_are_found(
    snapshot: ProjectSnapshot,
    demands: Seq<(&'static str, StartDemand)>,
    from: int,
)
    requires
        0 <= from <= demands.len(),
    ensures
        first_unmet(snapshot, demands, from) is None <==> forall|i: int|
            from <= i < demands.len() ==> (#[trigger] demands[i]).1.met(snapshot, demands[i].0@),
    decreases demands.len() - from,
{
    if from < demands.len() && demands[from].1.met(snapshot, demands[from].0@) {
        unmet_demands_are_found(snapshot, demands, from + 1);
    }
}

proof fn a_start_meets_its_demands(snapshot: ProjectSnapshot)
    ensures
        started(snapshot) <==> first_unmet(snapshot, start_demands(), 0) is None
            && pending_restart(snapshot),
{
    let demands = start_demands();
    unmet_demands_are_found(snapshot, demands, 0);
    if first_unmet(snapshot, demands, 0) is None {
        assert(demands[0] == ("started-source", StartDemand::Running));
        assert(demands[1] == ("started-dependent", StartDemand::Running));
        assert(demands[2] == ("tcp-ready", StartDemand::Ready(CheckKind::Tcp)));
        assert(demands[3] == ("http-ready", StartDemand::Ready(CheckKind::Http)));
        assert(demands[4] == ("exec-ready", StartDemand::Ready(CheckKind::Exec)));
        assert(demands[5] == ("log-ready", StartDemand::Ready(CheckKind::Log)));
        assert(demands[6] == ("all-ready", StartDemand::Ready(CheckKind::All)));
        assert(demands[7] == ("recovering", StartDemand::Ready(CheckKind::Http)));
        assert(demands[8] == ("ready-dependent", StartDemand::Running));
        assert(demands[9] == ("liveness-recover", StartDemand::Live));
        assert(demands[10] == ("liveness-restart", StartDemand::Live));
        assert(demands[11] == ("hello", StartDemand::Running));
        assert(demands[12] == ("shelled", StartDemand::Running));
        assert(demands[13] == ("piped", StartDemand::Running));
        assert(demands[14] == ("noisy", StartDemand::Running));
        assert(demands[15] == ("accepted", StartDemand::Completed(42)));
        assert(demands[16] == ("completed-dependent", StartDemand::Running));
        assert(demands[17] == ("exited-source", StartDemand::FailedExit(7)));
        assert(demands[18] == ("exited-dependent", StartDemand::Running));
        assert(demands[19] == ("rerun-setup", StartDemand::FailedExit(7)));
        assert(demands[20] == ("rerun-dependent", StartDemand::Waiting));
        assert(demands[21] == ("startup-timeout", StartDemand::StartupTimeout));
    }
}

/// Whether a stable start is reached. A missing Process is an error as soon as
/// it is looked at.
fn has_started(snapshot: &ProjectSnapshot) -> (r: Result<bool, String>)
    ensures
        (match r {
            Ok(reached) => Ok(reached),
            Err(message) => Err(message@),
        }) == start_reading(*snapshot),
{
    let demands = demands_of_start();
    proof {
        a_start_meets_its_demands(*snapshot);
    }
    let mut index: usize = 0;
    while index < demands.len()
        invariant
            index <= demands.len(),
            demands@ == start_demands(),
            first_unmet(*snapshot, demands@, 0) == first_unmet(*snapshot, demands@, index as int),
        decreases demands.len() - index,
    {
        let (name, demand) = demands[index];
        if !demand.is_met(snapshot, name) {
            return match snapshot.named(name) {
                Some(_) => Ok(false),
                None => Err(concat3("the fixture defines Process '", name, "'")),
            };
        }
        index = index + 1;
    }
    Ok(is_restart_pending(snapshot))
}

/// Whether an earlier time is not after a later one; no time is before any.
pub open spec fn not_before(later: Option<u64>, earlier: Option<u64>) -> bool {
    match (later, earlier) {
        (Some(later), Some(earlier)) => later >= earlier,
        (None, Some(_)) => false,
        (_, None) => true,
    }
}

/// Whether every child of a composite check passes.
pub open spec fn all_passing(children: Seq<ChildCheck>) -> bool {
    forall|i: int| 0 <= i < children.len() ==> (#[trigger] children[i]).state == CheckState::Passing
}

fn children_pass(children: &Vec<ChildCheck>) -> (r: bool)
    ensures
        r == all_passing(children@),
{
    let mut index: usize = 0;
    while index < children.len()
        invariant
            index <= children.len(),
            forall|i: int|
                0 <= i < index ==> (#[trigger] children@[i]).state == CheckState::Passing,
        decreases children.len() - index,
    {
        if children[index].state != CheckState::Passing {
            proof {
                assert(children@[index as int].state != CheckState::Passing);
            }
            return false;
        }
        index = index + 1;
    }
    true
}

/// What is wrong with a started Project, beyond where its Processes are.
pub open spec fn startup_verdict(snapshot: ProjectSnapshot) -> VerdictView {
    let source = snapshot.find("started-source"@)->0;
    let dependent = snapshot.find("started-dependent"@)->0;
    let all = snapshot.find("all-ready"@)->0.readiness->0;
    let accepted = snapshot.find("accepted"@)->0;
    let rerun = snapshot.find("rerun-dependent"@)->0;
    let pending = snapshot.find("shutdown-restart"@)->0;
    let recovering = snapshot.find("recovering"@)->0.readiness->0;
    let liveness = snapshot.find("liveness-recover"@)->0.liveness->0;
    if !not_before(dependent.run_started_at_ms, source.run_started_at_ms) {
        VerdictView::Failed("started dependency order was not preserved"@)
    } else if all.children@.len() != 2 || all.children@[0].kind != CheckKind::Tcp
        || all.children@[1].kind != CheckKind::Http || !all_passing(all.children@) {
        VerdictView::Broken("the composite readiness shows its two passing checks"@)
    } else if accepted.desired != DesiredState::Stopped || accepted.failure is Some {
        VerdictView::Broken("an accepted exit leaves the One-shot stopped without a failure"@)
    } else if rerun.desired != DesiredState::Running || !(rerun.blocked_reason matches Some(reason)
        && begins(reason@, "rerun-setup: completed_successfully"@)) {
        VerdictView::Broken("a blocked dependent stays desired with its reason"@)
    } else if pending.recent_runs@.len() != 1 || pending.automatic_restart_budget.max_restarts != 2 {
        VerdictView::Broken("a pending restart follows one Run"@)
    } else if recovering.attempts == 0 || liveness.attempts == 0 {
        VerdictView::Broken("checks count their attempts"@)
    } else {
        match (snapshot.find("manual"@), snapshot.find("off"@)) {
            (None, _) => VerdictView::Broken(undefined("manual"@)),
            (_, None) => VerdictView::Broken(undefined("off"@)),
            (Some(manual), Some(off)) => if manual.desired != DesiredState::Stopped
                || manual.current_run is Some {
                VerdictView::Broken("a manual Process does not start by itself"@)
            } else if off.enabled || off.current_run is Some {
                VerdictView::Broken("a disabled Process does not start"@)
            } else {
                VerdictView::Met
            },
        }
    }
}

fn check_manual(snapshot: &ProjectSnapshot) -> (r: Verdict)
    ensures
        r@ == (match (snapshot.find("manual"@), snapshot.find("off"@)) {
            (None, _) => VerdictView::Broken(undefined("manual"@)),
            (_, None) => VerdictView::Broken(undefined("off"@)),
            (Some(manual), Some(off)) => if manual.desired != DesiredState::Stopped
                || manual.current_run is Some {
                VerdictView::Broken("a manual Process does not start by itself"@)
            } else if off.enabled || off.current_run is Some {
                VerdictView::Broken("a disabled Process does not start"@)
            } else {
                VerdictView::Met
            },
        }),
{
    let manual = match snapshot.named("manual") {
        Some(process) => process,
        None => {
            return Verdict::Broken(concat3("the fixture defines Process '", "manual", "'"));
        },
    };
    let off = match snapshot.named("off") {
        Some(process) => process,
        None => {
            return Verdict::Broken(concat3("the fixture defines Process '", "off", "'"));
        },
    };
    if manual.desired != DesiredState::Stopped || manual.current_run.is_some() {
        Verdict::broken("a manual Process does not start by itself")
    } else if off.enabled || off.current_run.is_some() {
        Verdict::broken("a disabled Process does not start")
    } else {
        Verdict::Met
    }
}

fn after(later: Option<u64>, earlier: Option<u64>) -> (r: bool)
    ensures
        r == not_before(later, earlier),
{
    match (later, earlier) {
        (Some(later), Some(earlier)) => later >= earlier,
        (None, Some(_)) => false,
        (_, None) => true,
    }
}

/// Checks a started Project beyond where its Processes are.
pub fn assert_startup_snapshot(snapshot: &ProjectSnapshot) -> (r: Verdict)
    requires
        started(*snapshot),
    ensures
        r@ == startup_verdict(*snapshot),
{
    let source = snapshot.named("started-source").unwrap();
    let dependent = snapshot.named("started-dependent").unwrap();
    if !after(dependent.run_started_at_ms, source.run_started_at_ms) {
        return Verdict::failed("started dependency order was not preserved");
    }
    let all_ready = snapshot.named("all-ready").unwrap();
    let all = all_ready.readiness.as_ref().unwrap();
    if all.children.len() != 2 || all.children[0].kind != CheckKind::Tcp || all.children[1].kind
        != CheckKind::Http || !children_pass(&all.children) {
        return Verdict::broken("the composite readiness shows its two passing checks");
    }
    let accepted = snapshot.named("accepted").unwrap();
    if accepted.desired != DesiredState::Stopped || accepted.failure.is_some() {
        return Verdict::broken("an accepted exit leaves the One-shot stopped without a failure");
    }
    let rerun = snapshot.named("rerun-dependent").unwrap();
    if rerun.desired != DesiredState::Running || !says_first(
        &rerun.blocked_reason,
        "rerun-setup: completed_successfully",
    ) {
        return Verdict::broken("a blocked dependent stays desired with its reason");
    }
    let pending = snapshot.named("shutdown-restart").unwrap();
    if pending.recent_runs.len() != 1 || pending.automatic_restart_budget.max_restarts != 2 {
        return Verdict::broken("a pending restart follows one Run");
    }
    let recovering = snapshot.named("recovering").unwrap();
    let live = snapshot.named("liveness-recover").unwrap();
    if recovering.readiness.as_ref().unwrap().attempts == 0
        || live.liveness.as_ref().unwrap().attempts == 0 {
        return Verdict::broken("checks count their attempts");
    }
    check_manual(snapshot)
}

/// Whether a Service keeps a Run while a policy of it is in a state.
pub open spec fn keeps_run(process: ProcessSnapshot, run: u64) -> bool {
    process.lifecycle == Lifecycle::Running && process.current_run == Some(run)
}

/// Whether a Process of that name has a Run.
pub open spec fn has_run(snapshot: ProjectSnapshot, name: Seq<char>, run: u64) -> bool {
    snapshot.find(name) matches Some(process) && process.current_run == Some(run)
}

fn holds_run(snapshot: &ProjectSnapshot, name: &str, run: u64) -> (r: bool)
    ensures
        r == has_run(*snapshot, name@, run),
{
    match snapshot.named(name) {
        Some(process) => process.current_run == Some(run),
        None => false,
    }
}

impl Slice {
    /// A proof that has not begun.
    pub open spec fn fresh() -> Slice {
        Slice {
            phase: SlicePhase::Blocked,
            recovering_run: 0,
            dependent_run: 0,
            liveness_run: 0,
            unhealthy_run: 0,
        }
    }

    /// The slice before its first phase.
    pub fn new() -> (r: Self)
        ensures
            r == Slice::fresh(),
    {
        Slice {
            phase: SlicePhase::Blocked,
            recovering_run: 0,
            dependent_run: 0,
            liveness_run: 0,
            unhealthy_run: 0,
        }
    }

    /// The slice in another phase.
    pub open spec fn at(self, phase: SlicePhase) -> Slice {
        Slice { phase, ..self }
    }

    /// The wait for a blocked dependent.
    pub open spec fn after_blocked(self, snapshot: ProjectSnapshot) -> (Slice, SliceStepView) {
        if blocked(snapshot) {
            (
                self.at(SlicePhase::Started),
                one_checkpoint("fixture-blocked-ok"@, SliceAction::Nothing),
            )
        } else {
            (self, SliceStepView::Wait)
        }
    }

    /// The wait for a stable start; a missing Process ends it at once.
    pub open spec fn after_start(self, snapshot: ProjectSnapshot) -> (Slice, SliceStepView) {
        match start_reading(snapshot) {
            Err(message) => (self, breaking(message)),
            Ok(false) => (self, SliceStepView::Wait),
            Ok(true) => match startup_verdict(snapshot) {
                VerdictView::Met => (
                    Slice {
                        phase: SlicePhase::ConsolesProved,
                        recovering_run: snapshot.find("recovering"@)->0.current_run->0,
                        dependent_run: snapshot.find("ready-dependent"@)->0.current_run->0,
                        ..self
                    },
                    one_checkpoint("fixture-started-ok"@, SliceAction::ProveConsoleOutput),
                ),
                verdict => (self, SliceStepView::Stop(verdict)),
            },
        }
    }

    /// The proved output of consoles, which takes no wait.
    pub open spec fn after_consoles(self) -> (Slice, SliceStepView) {
        (
            self.at(SlicePhase::PipesProved),
            one_checkpoint("fixture-output-ok"@, SliceAction::ProvePipeOutput),
        )
    }

    /// The proved output of pipes, which takes no wait.
    pub open spec fn after_pipes(self) -> (Slice, SliceStepView) {
        (
            self.at(SlicePhase::TimeoutProved),
            one_checkpoint("fixture-pipe-output-ok"@, SliceAction::ProveTimeoutExit),
        )
    }

    /// The proved end of a late Process, which takes no wait. From here on the
    /// endpoints of the fixture change.
    pub open spec fn after_timeout(self) -> (Slice, SliceStepView) {
        (
            self.at(SlicePhase::ReadinessLost),
            SliceStepView::Advance {
                checkpoints: seq!["fixture-startup-timeout-ok"@, "fixture-readiness-ready"@],
                action: SliceAction::Nothing,
            },
        )
    }

    /// The wait for a Service that loses its readiness and keeps its Run.
    pub open spec fn after_readiness_loss(self, snapshot: ProjectSnapshot) -> (
        Slice,
        SliceStepView,
    ) {
        match snapshot.find("recovering"@) {
            Some(process) if keeps_run(process, self.recovering_run) && is_failing(
                process.readiness,
            ) => if !(process.readiness->0.last_error matches Some(error) && holds(
                error@,
                "503"@,
            )) {
                (self, failing("readiness loss did not retain the endpoint diagnostic"@))
            } else if !has_run(snapshot, "ready-dependent"@, self.dependent_run) {
                (self, failing("readiness loss stopped an already-running dependent"@))
            } else {
                (
                    self.at(SlicePhase::ReadinessBack),
                    one_checkpoint("fixture-readiness-failing"@, SliceAction::Nothing),
                )
            },
            _ => (self, SliceStepView::Wait),
        }
    }

    /// The wait for the readiness of that Run to come back.
    pub open spec fn after_readiness_return(self, snapshot: ProjectSnapshot) -> (
        Slice,
        SliceStepView,
    ) {
        match snapshot.find("recovering"@) {
            Some(process) if keeps_run(process, self.recovering_run) && is_passing(
                process.readiness,
            ) => if !has_run(snapshot, "ready-dependent"@, self.dependent_run) {
                (self, failing("readiness recovery changed the already-running dependent"@))
            } else {
                match run_reading(snapshot, "liveness-recover"@) {
                    Err(verdict) => (self, SliceStepView::Stop(verdict)),
                    Ok(run) => (
                        Slice { phase: SlicePhase::LivenessLost, liveness_run: run, ..self },
                        SliceStepView::Advance {
                            checkpoints: seq![
                                "fixture-readiness-recovered"@,
                                "fixture-liveness-ready"@,
                            ],
                            action: SliceAction::Nothing,
                        },
                    ),
                }
            },
            _ => (self, SliceStepView::Wait),
        }
    }

    /// The wait for a Service that becomes unhealthy and keeps its Run.
    pub open spec fn after_liveness_loss(self, snapshot: ProjectSnapshot) -> (
        Slice,
        SliceStepView,
    ) {
        match snapshot.find("liveness-recover"@) {
            Some(process) if keeps_run(process, self.liveness_run) && is_failing(
                process.liveness,
            ) => if !failed_with(process, FailureKind::Liveness) {
                (self, failing("liveness failure is not structured"@))
            } else {
                (
                    self.at(SlicePhase::LivenessBack),
                    one_checkpoint("fixture-liveness-failing"@, SliceAction::Nothing),
                )
            },
            _ => (self, SliceStepView::Wait),
        }
    }

    /// The wait for that Run to become healthy again.
    pub open spec fn after_liveness_return(self, snapshot: ProjectSnapshot) -> (
        Slice,
        SliceStepView,
    ) {
        match snapshot.find("liveness-recover"@) {
            Some(process) if keeps_run(process, self.liveness_run) && is_passing(
                process.liveness,
            ) => if process.failure is Some {
                (self, failing("liveness recovery left a stale failure visible"@))
            } else {
                match run_reading(snapshot, "liveness-restart"@) {
                    Err(verdict) => (self, SliceStepView::Stop(verdict)),
                    Ok(run) => (
                        Slice { phase: SlicePhase::UnhealthyBackoff, unhealthy_run: run, ..self },
                        SliceStepView::Advance {
                            checkpoints: seq![
                                "fixture-liveness-recovered"@,
                                "fixture-unhealthy-restart-ready"@,
                            ],
                            action: SliceAction::Nothing,
                        },
                    ),
                }
            },
            _ => (self, SliceStepView::Wait),
        }
    }

    /// The wait for an unhealthy Service to be stopped for its restart.
    pub open spec fn after_unhealthy(self, snapshot: ProjectSnapshot) -> (Slice, SliceStepView) {
        match snapshot.find("liveness-restart"@) {
            Some(process) if backs_off(process, "unhealthy"@) => if process.automatic_restart_budget.automatic_retries_used
                != 0 {
                (
                    self,
                    failing("the unhealthy retry was counted before its replacement started"@),
                )
            } else {
                (
                    self.at(SlicePhase::UnhealthyRestarted),
                    one_checkpoint("fixture-unhealthy-restart-backoff"@, SliceAction::Nothing),
                )
            },
            _ => (self, SliceStepView::Wait),
        }
    }

    /// The wait for its healthy replacement.
    pub open spec fn after_restart(self, snapshot: ProjectSnapshot) -> (Slice, SliceStepView) {
        match snapshot.find("liveness-restart"@) {
            Some(process) if process.lifecycle == Lifecycle::Running && process.current_run is Some
                && process.current_run->0 != self.unhealthy_run && is_passing(
                process.liveness,
            ) => if process.automatic_restart_budget.automatic_retries_used != 1 {
                (self, breaking("the replacement is the first automatic retry"@))
            } else {
                (
                    self.at(SlicePhase::BudgetSpent),
                    one_checkpoint("fixture-unhealthy-restart-recovered"@, SliceAction::Nothing),
                )
            },
            _ => (self, SliceStepView::Wait),
        }
    }

    /// The wait for a Process that spends all of its automatic retries.
    pub open spec fn after_budget(self, snapshot: ProjectSnapshot) -> (Slice, SliceStepView) {
        match snapshot.find("budget"@) {
            Some(process) if process.lifecycle == Lifecycle::Stopped && process.current_run is None
                && failed_with(process, FailureKind::RestartLimit)
                && process.automatic_restart_budget.exhausted => if process.automatic_restart_budget.automatic_retries_used
                != 2 || process.automatic_restart_budget.max_restarts != 2
                || process.recent_runs@.len() != 3 || !holds(
                process.failure->0.detail@,
                "Restart limit"@,
            ) {
                (self, breaking("the spent budget shows every Run"@))
            } else {
                (
                    self.at(SlicePhase::BudgetProved),
                    SliceStepView::Advance {
                        checkpoints: seq![],
                        action: SliceAction::ProveRestartOutput,
                    },
                )
            },
            _ => (self, SliceStepView::Wait),
        }
    }

    /// The proved output of a spent budget, which takes no wait.
    pub open spec fn after_budget_output(self) -> (Slice, SliceStepView) {
        (
            self.at(SlicePhase::Rerun),
            one_checkpoint("fixture-restart-budget-ok"@, SliceAction::RerunSetup),
        )
    }

    /// The wait for a One-shot that runs again, and for its dependent.
    pub open spec fn after_rerun(self, snapshot: ProjectSnapshot) -> (Slice, SliceStepView) {
        match (snapshot.find("rerun-setup"@), snapshot.find("rerun-dependent"@)) {
            (Some(setup), Some(dependent)) if setup.lifecycle == Lifecycle::Done
                && setup.current_run is None && dependent.lifecycle == Lifecycle::Running
                && dependent.current_run is Some => if setup.recent_runs@.len() != 2
                || setup.recent_runs@[0].trigger != RunTrigger::Rerun {
                (self, breaking("the One-shot shows that it ran again"@))
            } else if dependent.blocked_reason is Some {
                (self, breaking("a started dependent is blocked no more"@))
            } else {
                (
                    self.at(SlicePhase::Finished),
                    one_checkpoint("fixture-rerun-recovered"@, SliceAction::Finish),
                )
            },
            _ => (self, SliceStepView::Wait),
        }
    }

    /// The answer to one snapshot.
    pub open spec fn next(self, snapshot: ProjectSnapshot) -> (Slice, SliceStepView) {
        match self.phase {
            SlicePhase::Blocked => self.after_blocked(snapshot),
            SlicePhase::Started => self.after_start(snapshot),
            SlicePhase::ConsolesProved => self.after_consoles(),
            SlicePhase::PipesProved => self.after_pipes(),
            SlicePhase::TimeoutProved => self.after_timeout(),
            SlicePhase::ReadinessLost => self.after_readiness_loss(snapshot),
            SlicePhase::ReadinessBack => self.after_readiness_return(snapshot),
            SlicePhase::LivenessLost => self.after_liveness_loss(snapshot),
            SlicePhase::LivenessBack => self.after_liveness_return(snapshot),
            SlicePhase::UnhealthyBackoff => self.after_unhealthy(snapshot),
            SlicePhase::UnhealthyRestarted => self.after_restart(snapshot),
            SlicePhase::BudgetSpent => self.after_budget(snapshot),
            SlicePhase::BudgetProved => self.after_budget_output(),
            SlicePhase::Rerun => self.after_rerun(snapshot),
            SlicePhase::Finished => (
                self,
                SliceStepView::Advance { checkpoints: seq![], action: SliceAction::Finish },
            ),
        }
    }
}

fn advance(first: &'static str, action: SliceAction) -> (r: SliceStep)
    ensures
        r@ == one_checkpoint(first@, action),
{
    let checkpoints = vec![first];
    proof {
        assert(words(checkpoints@) =~= seq![first@]);
    }
    SliceStep::Advance { checkpoints, action }
}

fn advance_twice(first: &'static str, second: &'static str) -> (r: SliceStep)
    ensures
        r@ == (SliceStepView::Advance {
            checkpoints: seq![first@, second@],
            action: SliceAction::Nothing,
        }),
{
    let checkpoints = vec![first, second];
    proof {
        assert(words(checkpoints@) =~= seq![first@, second@]);
    }
    SliceStep::Advance { checkpoints, action: SliceAction::Nothing }
}

fn advance_quietly(action: SliceAction) -> (r: SliceStep)
    ensures
        r@ == (SliceStepView::Advance { checkpoints: seq![], action }),
{
    let checkpoints: Vec<&'static str> = Vec::new();
    proof {
        assert(words(checkpoints@) =~= Seq::<Seq<char>>::empty());
    }
    SliceStep::Advance { checkpoints, action }
}

fn fail(message: &str) -> (r: SliceStep)
    ensures
        r@ == failing(message@),
{
    SliceStep::Stop(Verdict::failed(message))
}

fn broken(message: &str) -> (r: SliceStep)
    ensures
        r@ == breaking(message@),
{
    SliceStep::Stop(Verdict::broken(message))
}

impl Slice {
    fn leave(&mut self, phase: SlicePhase)
        ensures
            *final(self) == old(self).at(phase),
    {
        self.phase = phase;
    }

    fn begin(&mut self, snapshot: &ProjectSnapshot) -> (r: SliceStep)
        ensures
            (*final(self), r@) == old(self).after_start(*snapshot),
    {
        match has_started(snapshot) {
            Err(message) => {
                return SliceStep::Stop(Verdict::Broken(message));
            },
            Ok(false) => {
                return SliceStep::Wait;
            },
            Ok(true) => {},
        }
        match assert_startup_snapshot(snapshot) {
            Verdict::Met => {},
            verdict => {
                return SliceStep::Stop(verdict);
            },
        }
        let recovering = snapshot.named("recovering").unwrap();
        let dependent = snapshot.named("ready-dependent").unwrap();
        *self = Slice {
            phase: SlicePhase::ConsolesProved,
            recovering_run: recovering.current_run.unwrap(),
            dependent_run: dependent.current_run.unwrap(),
            liveness_run: self.liveness_run,
            unhealthy_run: self.unhealthy_run,
        };
        advance("fixture-started-ok", SliceAction::ProveConsoleOutput)
    }

    fn lose_readiness(&mut self, snapshot: &ProjectSnapshot) -> (r: SliceStep)
        ensures
            (*final(self), r@) == old(self).after_readiness_loss(*snapshot),
    {
        let process = match snapshot.named("recovering") {
            Some(process) => process,
            None => {
                return SliceStep::Wait;
            },
        };
        if process.lifecycle != Lifecycle::Running || process.current_run != Some(
            self.recovering_run,
        ) || !in_state(&process.readiness, CheckState::Failing) {
            return SliceStep::Wait;
        }
        if !mentions(&process.readiness.as_ref().unwrap().last_error, "503") {
            return fail("readiness loss did not retain the endpoint diagnostic");
        }
        if !holds_run(snapshot, "ready-dependent", self.dependent_run) {
            return fail("readiness loss stopped an already-running dependent");
        }
        self.leave(SlicePhase::ReadinessBack);
        advance("fixture-readiness-failing", SliceAction::Nothing)
    }

    fn regain_readiness(&mut self, snapshot: &ProjectSnapshot) -> (r: SliceStep)
        ensures
            (*final(self), r@) == old(self).after_readiness_return(*snapshot),
    {
        let process = match snapshot.named("recovering") {
            Some(process) => process,
            None => {
                return SliceStep::Wait;
            },
        };
        if process.lifecycle != Lifecycle::Running || process.current_run != Some(
            self.recovering_run,
        ) || !in_state(&process.readiness, CheckState::Passing) {
            return SliceStep::Wait;
        }
        if !holds_run(snapshot, "ready-dependent", self.dependent_run) {
            return fail("readiness recovery changed the already-running dependent");
        }
        match current_run(snapshot, "liveness-recover") {
            Err(verdict) => SliceStep::Stop(verdict),
            Ok(run) => {
                self.liveness_run = run;
                self.phase = SlicePhase::LivenessLost;
                advance_twice("fixture-readiness-recovered", "fixture-liveness-ready")
            },
        }
    }

    fn lose_liveness(&mut self, snapshot: &ProjectSnapshot) -> (r: SliceStep)
        ensures
            (*final(self), r@) == old(self).after_liveness_loss(*snapshot),
    {
        let process = match snapshot.named("liveness-recover") {
            Some(process) => process,
            None => {
                return SliceStep::Wait;
            },
        };
        if process.lifecycle != Lifecycle::Running || process.current_run != Some(
            self.liveness_run,
        ) || !in_state(&process.liveness, CheckState::Failing) {
            return SliceStep::Wait;
        }
        if !has_failure(process, FailureKind::Liveness) {
            return fail("liveness failure is not structured");
        }
        self.leave(SlicePhase::LivenessBack);
        advance("fixture-liveness-failing", SliceAction::Nothing)
    }

    fn regain_liveness(&mut self, snapshot: &ProjectSnapshot) -> (r: SliceStep)
        ensures
            (*final(self), r@) == old(self).after_liveness_return(*snapshot),
    {
        let process = match snapshot.named("liveness-recover") {
            Some(process) => process,
            None => {
                return SliceStep::Wait;
            },
        };
        if process.lifecycle != Lifecycle::Running || process.current_run != Some(
            self.liveness_run,
        ) || !in_state(&process.liveness, CheckState::Passing) {
            return SliceStep::Wait;
        }
        if process.failure.is_some() {
            return fail("liveness recovery left a stale failure visible");
        }
        match current_run(snapshot, "liveness-restart") {
            Err(verdict) => SliceStep::Stop(verdict),
            Ok(run) => {
                self.unhealthy_run = run;
                self.phase = SlicePhase::UnhealthyBackoff;
                advance_twice("fixture-liveness-recovered", "fixture-unhealthy-restart-ready")
            },
        }
    }

    fn stop_unhealthy(&mut self, snapshot: &ProjectSnapshot) -> (r: SliceStep)
        ensures
            (*final(self), r@) == old(self).after_unhealthy(*snapshot),
    {
        let process = match snapshot.named("liveness-restart") {
            Some(process) => process,
            None => {
                return SliceStep::Wait;
            },
        };
        if !backing_off(process, "unhealthy") {
            return SliceStep::Wait;
        }
        if process.automatic_restart_budget.automatic_retries_used != 0 {
            return fail("the unhealthy retry was counted before its replacement started");
        }
        self.leave(SlicePhase::UnhealthyRestarted);
        advance("fixture-unhealthy-restart-backoff", SliceAction::Nothing)
    }

    fn replace_unhealthy(&mut self, snapshot: &ProjectSnapshot) -> (r: SliceStep)
        ensures
            (*final(self), r@) == old(self).after_restart(*snapshot),
    {
        let process = match snapshot.named("liveness-restart") {
            Some(process) => process,
            None => {
                return SliceStep::Wait;
            },
        };
        if process.lifecycle != Lifecycle::Running || process.current_run.is_none()
            || process.current_run.unwrap() == self.unhealthy_run || !in_state(
            &process.liveness,
            CheckState::Passing,
        ) {
            return SliceStep::Wait;
        }
        if process.automatic_restart_budget.automatic_retries_used != 1 {
            return broken("the replacement is the first automatic retry");
        }
        self.leave(SlicePhase::BudgetSpent);
        advance("fixture-unhealthy-restart-recovered", SliceAction::Nothing)
    }

    fn spend_budget(&mut self, snapshot: &ProjectSnapshot) -> (r: SliceStep)
        ensures
            (*final(self), r@) == old(self).after_budget(*snapshot),
    {
        let process = match snapshot.named("budget") {
            Some(process) => process,
            None => {
                return SliceStep::Wait;
            },
        };
        if process.lifecycle != Lifecycle::Stopped || process.current_run.is_some() || !has_failure(
            process,
            FailureKind::RestartLimit,
        ) || !process.automatic_restart_budget.exhausted {
            return SliceStep::Wait;
        }
        if process.automatic_restart_budget.automatic_retries_used != 2
            || process.automatic_restart_budget.max_restarts != 2 || process.recent_runs.len() != 3
            || !contains(process.failure.as_ref().unwrap().detail.as_str(), "Restart limit") {
            return broken("the spent budget shows every Run");
        }
        self.leave(SlicePhase::BudgetProved);
        advance_quietly(SliceAction::ProveRestartOutput)
    }

    fn run_again(&mut self, snapshot: &ProjectSnapshot) -> (r: SliceStep)
        ensures
            (*final(self), r@) == old(self).after_rerun(*snapshot),
    {
        let setup = match snapshot.named("rerun-setup") {
            Some(process) => process,
            None => {
                return SliceStep::Wait;
            },
        };
        let dependent = match snapshot.named("rerun-dependent") {
            Some(process) => process,
            None => {
                return SliceStep::Wait;
            },
        };
        if setup.lifecycle != Lifecycle::Done || setup.current_run.is_some() || dependent.lifecycle
            != Lifecycle::Running || dependent.current_run.is_none() {
            return SliceStep::Wait;
        }
        if setup.recent_runs.len() != 2 || setup.recent_runs[0].trigger != RunTrigger::Rerun {
            return broken("the One-shot shows that it ran again");
        }
        if dependent.blocked_reason.is_some() {
            return broken("a started dependent is blocked no more");
        }
        self.leave(SlicePhase::Finished);
        advance("fixture-rerun-recovered", SliceAction::Finish)
    }

    /// Takes one snapshot of the Project into the proof.
    pub fn prove_slice(&mut self, snapshot: &ProjectSnapshot) -> (r: SliceStep)
        ensures
            (*final(self), r@) == old(self).next(*snapshot),
    {
        match self.phase {
            SlicePhase::Blocked => if is_blocked(snapshot) {
                self.leave(SlicePhase::Started);
                advance("fixture-blocked-ok", SliceAction::Nothing)
            } else {
                SliceStep::Wait
            },
            SlicePhase::Started => self.begin(snapshot),
            SlicePhase::ConsolesProved => {
                self.leave(SlicePhase::PipesProved);
                advance("fixture-output-ok", SliceAction::ProvePipeOutput)
            },
            SlicePhase::PipesProved => {
                self.leave(SlicePhase::TimeoutProved);
                advance("fixture-pipe-output-ok", SliceAction::ProveTimeoutExit)
            },
            SlicePhase::TimeoutProved => {
                self.leave(SlicePhase::ReadinessLost);
                advance_twice("fixture-startup-timeout-ok", "fixture-readiness-ready")
            },
            SlicePhase::ReadinessLost => self.lose_readiness(snapshot),
            SlicePhase::ReadinessBack => self.regain_readiness(snapshot),
            SlicePhase::LivenessLost => self.lose_liveness(snapshot),
            SlicePhase::LivenessBack => self.regain_liveness(snapshot),
            SlicePhase::UnhealthyBackoff => self.stop_unhealthy(snapshot),
            SlicePhase::UnhealthyRestarted => self.replace_unhealthy(snapshot),
            SlicePhase::BudgetSpent => self.spend_budget(snapshot),
            SlicePhase::BudgetProved => {
                self.leave(SlicePhase::Rerun);
                advance("fixture-restart-budget-ok", SliceAction::RerunSetup)
            },
            SlicePhase::Rerun => self.run_again(snapshot),
            SlicePhase::Finished => advance_quietly(SliceAction::Finish),
        }
    }

    /// How long the current phase may take, in seconds.
    pub open spec fn limit(self) -> u64 {
        match self.phase {
            SlicePhase::Blocked | SlicePhase::Started | SlicePhase::BudgetSpent => STARTUP_WAIT,
            _ => TRANSITION_WAIT,
        }
    }

    /// How long the current phase may take, in seconds.
    pub fn phase_limit(&self) -> (r: u64)
        ensures
            r == self.limit(),
    {
        match self.phase {
            SlicePhase::Blocked | SlicePhase::Started | SlicePhase::BudgetSpent => STARTUP_WAIT,
            _ => TRANSITION_WAIT,
        }
    }
}

/// The order of the phases.
pub open spec fn phase_rank(phase: SlicePhase) -> int {
    match phase {
        SlicePhase::Blocked => 0,
        SlicePhase::Started => 1,
        SlicePhase::ConsolesProved => 2,
        SlicePhase::PipesProved => 3,
        SlicePhase::TimeoutProved => 4,
        SlicePhase::ReadinessLost => 5,
        SlicePhase::ReadinessBack => 6,
        SlicePhase::LivenessLost => 7,
        SlicePhase::LivenessBack => 8,
        SlicePhase::UnhealthyBackoff => 9,
        SlicePhase::UnhealthyRestarted => 10,
        SlicePhase::BudgetSpent => 11,
        SlicePhase::BudgetProved => 12,
        SlicePhase::Rerun => 13,
        SlicePhase::Finished => 14,
    }
}

/// A snapshot moves the proof to the next phase exactly where the answer says
/// so, and leaves it as it is otherwise; no phase is skipped or repeated.
pub proof fn phases_follow_each_other(slice: Slice, snapshot: ProjectSnapshot)
    requires
        slice.phase != SlicePhase::Finished,
    ensures
        match slice.next(snapshot).1 {
            SliceStepView::Advance { .. } => phase_rank(slice.next(snapshot).0.phase)
                == phase_rank(slice.phase) + 1,
            _ => slice.next(snapshot).0 == slice,
        },
{
}

/// The proof waits for the One-shot to run again only once it asked for that
/// Run.
pub proof fn rerun_is_asked_for(slice: Slice, snapshot: ProjectSnapshot)
    ensures
        slice.phase != SlicePhase::Rerun && slice.next(snapshot).0.phase == SlicePhase::Rerun ==> (
        slice.next(snapshot).1 matches SliceStepView::Advance { checkpoints, action } && action
            == SliceAction::RerunSetup),
{
}

/// The proof waits for a change of an endpoint only once it announced that it
/// is ready for it.
pub proof fn endpoint_changes_are_announced(slice: Slice, snapshot: ProjectSnapshot)
    ensures
        ({
            let (after, step) = slice.next(snapshot);
            let announced = |label: Seq<char>|
                step matches SliceStepView::Advance { checkpoints, .. } && checkpoints.last()
                    == label;
            slice.phase != after.phase ==> {
                &&& after.phase == SlicePhase::ReadinessLost ==> announced(
                    "fixture-readiness-ready"@,
                )
                &&& after.phase == SlicePhase::ReadinessBack ==> announced(
                    "fixture-readiness-failing"@,
                )
                &&& after.phase == SlicePhase::LivenessLost ==> announced(
                    "fixture-liveness-ready"@,
                )
                &&& after.phase == SlicePhase::LivenessBack ==> announced(
                    "fixture-liveness-failing"@,
                )
                &&& after.phase == SlicePhase::UnhealthyBackoff ==> announced(
                    "fixture-unhealthy-restart-ready"@,
                )
                &&& after.phase == SlicePhase::UnhealthyRestarted ==> announced(
                    "fixture-unhealthy-restart-backoff"@,
                )
            }
        }),
{
}

/// A phase that only reports a proof by the driver takes no wait.
pub proof fn reported_proofs_take_no_wait(slice: Slice, snapshot: ProjectSnapshot)
    requires
        slice.phase == SlicePhase::ConsolesProved || slice.phase == SlicePhase::PipesProved
            || slice.phase == SlicePhase::TimeoutProved || slice.phase == SlicePhase::BudgetProved,
    ensures
        slice.next(snapshot).1 is Advance,
{
}

/// Until they are replaced, the Runs that the proof follows stay the same.
pub proof fn followed_runs_stay(slice: Slice, snapshot: ProjectSnapshot)
    requires
        slice.phase != SlicePhase::Started,
    ensures
        slice.next(snapshot).0.recovering_run == slice.recovering_run,
        slice.next(snapshot).0.dependent_run == slice.dependent_run,
{
}

/// Why a stopped Project does not count as stopped cleanly.
pub open spec fn shutdown_verdict(snapshot: ProjectSnapshot) -> VerdictView {
    match snapshot.shutdown {
        None => VerdictView::Broken("shutdown completed"@),
        Some(result) => if result.timed_out {
            VerdictView::Failed("Project shutdown reached its deadline"@)
        } else if result.failures@.len() > 0 {
            VerdictView::Failed("Project shutdown reports cleanup failures"@)
        } else {
            match processes_verdict(snapshot.processes@, 0) {
                Some(message) => VerdictView::Failed(message),
                None => match snapshot.find("shutdown-restart"@) {
                    None => VerdictView::Broken(undefined("shutdown-restart"@)),
                    Some(process) => if process.recent_runs@.len() == 1
                        && process.automatic_restart_budget.automatic_retries_used == 0 {
                        VerdictView::Met
                    } else {
                        VerdictView::Failed("Project shutdown restarted a pending retry"@)
                    },
                },
            }
        },
    }
}

/// What is wrong with the first Process, from `from` on, that a shutdown did
/// not leave at rest.
pub open spec fn processes_verdict(processes: Seq<ProcessSnapshot>, from: int) -> Option<Seq<char>>
    decreases processes.len() - from,
{
    if from < 0 || from >= processes.len() {
        None
    } else if failed_with(processes[from], FailureKind::Shutdown) {
        Some("Process "@ + processes[from].name@ + " reported a cleanup failure"@)
    } else if processes[from].restart_backoff is Some {
        Some(
            "Project shutdown left an automatic restart pending for "@ + processes[from].name@,
        )
    } else {
        processes_verdict(processes, from + 1)
    }
}

fn check_processes(processes: &Vec<ProcessSnapshot>) -> (r: Option<String>)
    ensures
        (match r {
            Some(message) => Some(message@),
            None => None,
        }) == processes_verdict(processes@, 0),
{
    let mut index: usize = 0;
    while index < processes.len()
        invariant
            index <= processes.len(),
            processes_verdict(processes@, 0) == processes_verdict(processes@, index as int),
        decreases processes.len() - index,
    {
        let process = &processes[index];
        if has_failure(process, FailureKind::Shutdown) {
            return Some(
                concat3("Process ", process.name.as_str(), " reported a cleanup failure"),
            );
        }
        if process.restart_backoff.is_some() {
            return Some(
                concat2(
                    "Project shutdown left an automatic restart pending for ",
                    process.name.as_str(),
                ),
            );
        }
        index = index + 1;
    }
    None
}

/// Whether a Project shutdown is over.
pub fn shutdown_complete(snapshot: &ProjectSnapshot) -> (r: bool)
    ensures
        r == (snapshot.shutdown matches Some(result) && result.complete),
{
    match &snapshot.shutdown {
        Some(result) => result.complete,
        None => false,
    }
}

/// Checks a stopped Project.
pub fn check_shutdown(snapshot: &ProjectSnapshot) -> (r: Verdict)
    ensures
        r@ == shutdown_verdict(*snapshot),
{
    let result = match &snapshot.shutdown {
        Some(result) => result,
        None => {
            return Verdict::broken("shutdown completed");
        },
    };
    if result.timed_out {
        return Verdict::failed("Project shutdown reached its deadline");
    }
    if result.failures.len() > 0 {
        return Verdict::failed("Project shutdown reports cleanup failures");
    }
    if let Some(message) = check_processes(&snapshot.processes) {
        return Verdict::Failed(message);
    }
    match snapshot.named("shutdown-restart") {
        None => Verdict::Broken(concat3("the fixture defines Process '", "shutdown-restart", "'")),
        Some(process) => if process.recent_runs.len() == 1
            && process.automatic_restart_budget.automatic_retries_used == 0 {
            Verdict::Met
        } else {
            Verdict::failed("Project shutdown restarted a pending retry")
        },
    }
}

/// How a driven fixture ended.
#[derive(Clone, Debug, PartialEq, Eq)]
pub enum FixtureEnd {
    /// The Project could not be resolved, and why.
    Configuration(String),
    /// The proof stopped, and why.
    Proof(String),
    /// A descendant of the Project outlived it.
    DescendantRemained(u32),
    /// The Project output has still an owner.
    OutputRemained,
    Clean,
}

/// What is reported of a driven fixture.
pub open spec fn end_report(end: FixtureEnd) -> Option<Seq<char>> {
    match end {
        FixtureEnd::Configuration(detail) => Some("configuration error: "@ + detail@),
        FixtureEnd::Proof(message) => Some(message@),
        FixtureEnd::DescendantRemained(pid) => Some(
            "ordinary descendant PID "@ + decimal_text(pid as nat)
                + " remained after Project shutdown"@,
        ),
        FixtureEnd::OutputRemained => Some(
            "the Project output owner remained after shutdown"@,
        ),
        FixtureEnd::Clean => None,
    }
}

/// Run the integrated fixture from one production YAML Project. `drive` runs
/// the proof on the Project that a request names.
pub fn run<F: FnOnce(ResolutionRequest) -> FixtureEnd>(config_path: &str, drive: F) -> (r: Result<
    &'static str,
    String,
>)
    requires
        forall|request: ResolutionRequest| #[trigger] drive.requires((request,)),
    ensures
        exists|request: ResolutionRequest, end: FixtureEnd|
            {
                &&& request@ == (RequestView::Explicit { path: config_path@, profile: None })
                &&& #[trigger] drive.ensures((request,), end)
                &&& match end_report(end) {
                    None => r matches Ok(checkpoint) && checkpoint@ == "fixture-shutdown-ok"@,
                    Some(message) => r matches Err(text) && text@ == message,
                }
            },
{
    let end = drive(ResolutionRequest::explicit(config_path));
    match end {
        FixtureEnd::Configuration(detail) => Err(
            concat2("configuration error: ", detail.as_str()),
        ),
        FixtureEnd::Proof(message) => Err(message),
        FixtureEnd::DescendantRemained(pid) => {
            let digits = decimal_u64(pid as u64);
            Err(
                concat3(
                    "ordinary descendant PID ",
                    digits.as_str(),
                    " remained after Project shutdown",
                ),
            )
        },
        FixtureEnd::OutputRemained => Err(
            "the Project output owner remained after shutdown".to_owned(),
        ),
        FixtureEnd::Clean => Ok("fixture-shutdown-ok"),
    }
}

} // verus!
