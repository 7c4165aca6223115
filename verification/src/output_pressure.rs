//! Pressure evidence for the per-Process output module: several noisy pipe
//! Processes stay at their retention bound while lifecycle commands keep
//! flowing.

use vstd::prelude::*;

use crate::config::resolve::format_project_error;
use crate::duration::Duration;
use crate::fixtures::checks::Verdict;
use crate::fixtures::retained::{retained_bytes, RetainedChunk};
use crate::interaction::Command;
use crate::model::{
    Autostart, CommandForm, Enabled, InputPolicy, ProcessKind, ProcessSpec, RestartConfig,
    TerminalMode,
};
use crate::project::EffectiveProject;
use crate::snapshot::{Lifecycle, ProcessSnapshot, ProjectSnapshot};
use crate::text::{concat2, concat3, join};

#[allow(unused_imports)]
use crate::fixtures::checks::VerdictView;
#[allow(unused_imports)]
use crate::fixtures::retained::retained_size;
#[allow(unused_imports)]
use crate::graph::{first_cycle, follows, reported_cycle_is_real};
#[allow(unused_imports)]
use crate::interaction::CommandRequest;
#[allow(unused_imports)]
use crate::model::{process_views, CommandView, ProcessView};
#[allow(unused_imports)]
use crate::project::{
    dependency_graph, kind_fault, names, process_fault, processes_fault, project_fault,
    repeated_name,
};
#[allow(unused_imports)]
use crate::text::{joined, texts};

verus! {

/// How long each phase may take before the fixture reports a failure, in
/// seconds.
pub const PHASE_WAIT: u64 = 30;

/// A lifecycle command issued into a flooded output plane must still land
/// promptly, in seconds; one noisy Process must not delay work for another
/// Process.
pub const COMMAND_DEADLINE: u64 = 10;

/// The observed pressure results.
#[derive(Debug)]
pub struct OutputPressureReport {
    /// Noisy Processes that flooded their retained output.
    pub noisy_processes: usize,
    /// Processes whose retention bound actually truncated output.
    pub truncated_processes: usize,
    /// The largest retained byte count observed anywhere (bounded by
    /// construction; the proof is that it stayed at the bound).
    pub max_retained_bytes: usize,
    /// The largest retained chunk count observed anywhere.
    pub max_retained_chunks: usize,
    /// How long a stop command took while the noise continued, in ms.
    pub command_latency_ms: u128,
}

/// A pipe Service that runs one command.
pub open spec fn pipe_service(
    name: Seq<char>,
    autostart: Autostart,
    program: Seq<char>,
    argument: Seq<char>,
    working_dir: Seq<char>,
) -> ProcessView {
    ProcessView {
        name,
        kind: ProcessKind::Service,
        enabled: Enabled::Yes,
        autostart,
        success_exit_codes: seq![0i32],
        command: CommandView::Direct { program, args: seq![argument] },
        working_dir,
        env: seq![],
        env_remove: seq![],
        terminal_mode: TerminalMode::Pipe,
        input_policy: InputPolicy::Disabled,
        dependencies: seq![],
        readiness: None,
        liveness: None,
        restart: RestartConfig::standard(),
    }
}

fn build_service(
    name: &str,
    autostart: Autostart,
    program: &str,
    argument: &str,
    working_dir: &str,
) -> (r: ProcessSpec)
    ensures
        r@ == pipe_service(name@, autostart, program@, argument@, working_dir@),
{
    let process = ProcessSpec {
        name: name.to_owned(),
        kind: ProcessKind::Service,
        enabled: Enabled::Yes,
        autostart,
        success_exit_codes: vec![0],
        command: CommandForm::Direct {
            program: program.to_owned(),
            args: vec![argument.to_owned()],
        },
        working_dir: working_dir.to_owned(),
        env: Vec::new(),
        env_remove: Vec::new(),
        terminal_mode: TerminalMode::Pipe,
        input_policy: InputPolicy::Disabled,
        dependencies: Vec::new(),
        readiness: None,
        liveness: None,
        restart: RestartConfig::default(),
    };
    proof {
        let view = pipe_service(name@, autostart, program@, argument@, working_dir@);
        assert(process@.success_exit_codes =~= view.success_exit_codes);
        assert(process@.command->args =~= view.command->args);
        assert(process@.env =~= view.env);
        assert(process@.env_remove =~= view.env_remove);
        assert(process@.dependencies =~= view.dependencies);
    }
    process
}

/// One noisy pipe Process: `yes` floods stdout until the Run stops.
pub open spec fn noisy(name: Seq<char>, working_dir: Seq<char>) -> ProcessView {
    pipe_service(name, Autostart::Yes, "yes"@, "stackhand-noise"@, working_dir)
}

/// One quiet pipe Service that a command can target while the noise runs.
pub open spec fn quiet(name: Seq<char>, autostart: bool, working_dir: Seq<char>) -> ProcessView {
    pipe_service(
        name,
        if autostart {
            Autostart::Yes
        } else {
            Autostart::No
        },
        "/bin/sleep"@,
        "60"@,
        working_dir,
    )
}

/// The Processes of the pressure Project.
pub open spec fn pressure_processes(working_dir: Seq<char>) -> Seq<ProcessView> {
    seq![
        noisy("noisy-0"@, working_dir),
        noisy("noisy-1"@, working_dir),
        noisy("noisy-2"@, working_dir),
        quiet("quiet"@, true, working_dir),
        quiet("manual"@, false, working_dir),
    ]
}

fn noisy_process(name: &str, working_dir: &str) -> (r: ProcessSpec)
    ensures
        r@ == noisy(name@, working_dir@),
{
    build_service(name, Autostart::Yes, "yes", "stackhand-noise", working_dir)
}

fn quiet_process(name: &str, autostart: bool, working_dir: &str) -> (r: ProcessSpec)
    ensures
        r@ == quiet(name@, autostart, working_dir@),
{
    let start = if autostart {
        Autostart::Yes
    } else {
        Autostart::No
    };
    build_service(name, start, "/bin/sleep", "60", working_dir)
}

/// The names of the pressure Project differ from each other.
proof fn names_differ()
    ensures
        "noisy-0"@ != "noisy-1"@,
        "noisy-0"@ != "noisy-2"@,
        "noisy-1"@ != "noisy-2"@,
        "quiet"@ != "noisy-0"@,
        "quiet"@ != "noisy-1"@,
        "quiet"@ != "noisy-2"@,
        "manual"@ != "noisy-0"@,
        "manual"@ != "noisy-1"@,
        "manual"@ != "noisy-2"@,
        "manual"@ != "quiet"@,
{
    reveal_strlit("noisy-0");
    reveal_strlit("noisy-1");
    reveal_strlit("noisy-2");
    reveal_strlit("quiet");
    reveal_strlit("manual");
    assert("noisy-0"@[6] != "noisy-1"@[6]);
    assert("noisy-0"@[6] != "noisy-2"@[6]);
    assert("noisy-1"@[6] != "noisy-2"@[6]);
    assert("noisy-0"@.len() == 7 && "noisy-1"@.len() == 7 && "noisy-2"@.len() == 7);
    assert("quiet"@.len() == 5 && "manual"@.len() == 6);
}

/// The pressure Project is valid in every directory.
pub proof fn pressure_project_is_valid(working_dir: Seq<char>)
    ensures
        project_fault(pressure_processes(working_dir)) is None,
{
    let processes = pressure_processes(working_dir);
    let all = names(processes);
    names_differ();
    assert(all.len() == 5);
    assert(all[0] == "noisy-0"@ && all[1] == "noisy-1"@ && all[2] == "noisy-2"@ && all[3]
        == "quiet"@ && all[4] == "manual"@);
    assert forall|i: int| 0 <= i < 5 implies !#[trigger] all.take(i).contains(all[i]) by {
        assert forall|j: int| 0 <= j < i implies all.take(i)[j] != all[i] by {
            assert(all.take(i)[j] == all[j]);
        }
    }
    reveal_with_fuel(repeated_name, 6);
    assert(repeated_name(all, 0) is None);
    assert forall|i: int| 0 <= i < 5 implies #[trigger] process_fault(processes, processes[i])
        is None by {
        assert(processes[i].dependencies =~= seq![]);
        assert(kind_fault(processes[i]) is None);
    }
    reveal_with_fuel(processes_fault, 6);
    assert(processes_fault(processes, 0) is None);
    let graph = dependency_graph(processes);
    assert forall|i: int| 0 <= i < graph.len() implies (#[trigger] graph[i]) =~= Seq::<
        int,
    >::empty() by {
        assert(processes[i].dependencies =~= seq![]);
    }
    if first_cycle(graph) is Some {
        reported_cycle_is_real(graph);
        let cycle = first_cycle(graph)->0;
        assert(follows(graph, cycle, 1));
        assert(graph[cycle[0]] =~= Seq::<int>::empty());
    }
}

/// Why the pressure Project has no commands to give yet, or what it gives.
#[derive(Clone, Copy, Debug, PartialEq, Eq, Structural)]
pub enum PressurePhase {
    /// Every autostarted Process gets its Run.
    Starting,
    /// Every noisy Process floods its retained output.
    Flooding,
    /// One quiet Process stops while the noise goes on.
    Stopping,
    /// Every Process stops. What the outputs hold under pressure is read before
    /// the command for that goes out.
    Draining,
    Finished,
}

/// The answer to one snapshot.
pub enum PressureStep {
    Wait,
    Stop(Verdict),
    /// The phase is over; these commands come next.
    Advance(Vec<Command>),
}

/// The answer to one snapshot as mathematical values.
pub enum PressureStepView {
    Wait,
    Stop(VerdictView),
    Advance(Seq<CommandRequest>),
}

impl View for PressureStep {
    type V = PressureStepView;

    open spec fn view(&self) -> PressureStepView {
        match *self {
            PressureStep::Wait => PressureStepView::Wait,
            PressureStep::Stop(verdict) => PressureStepView::Stop(verdict@),
            PressureStep::Advance(commands) => PressureStepView::Advance(
                commands@.map_values(|command: Command| command@),
            ),
        }
    }
}

/// Whether every autostarted Process runs.
pub open spec fn all_running(processes: Seq<ProcessSnapshot>) -> bool {
    forall|i: int|
        0 <= i < processes.len() ==> (!(#[trigger] processes[i]).autostart
            || processes[i].lifecycle == Lifecycle::Running)
}

/// Whether every autostarted Process has a Run.
pub open spec fn all_owning(processes: Seq<ProcessSnapshot>) -> bool {
    forall|i: int|
        0 <= i < processes.len() ==> (!(#[trigger] processes[i]).autostart
            || processes[i].current_run is Some)
}

/// Whether no Process has a Run.
pub open spec fn all_idle(processes: Seq<ProcessSnapshot>) -> bool {
    forall|i: int| 0 <= i < processes.len() ==> (#[trigger] processes[i]).current_run is None
}

/// Whether every value is true.
pub open spec fn all_true(values: Seq<bool>) -> bool {
    forall|i: int| 0 <= i < values.len() ==> #[trigger] values[i]
}

fn every_running(processes: &Vec<ProcessSnapshot>) -> (r: bool)
    ensures
        r == all_running(processes@),
{
    let mut index: usize = 0;
    while index < processes.len()
        invariant
            index <= processes.len(),
            forall|i: int|
                0 <= i < index ==> (!(#[trigger] processes@[i]).autostart
                    || processes@[i].lifecycle == Lifecycle::Running),
        decreases processes.len() - index,
    {
        let process = &processes[index];
        if process.autostart && process.lifecycle != Lifecycle::Running {
            proof {
                assert(processes@[index as int].autostart);
            }
            return false;
        }
        index = index + 1;
    }
    true
}

fn every_owning(processes: &Vec<ProcessSnapshot>) -> (r: bool)
    ensures
        r == all_owning(processes@),
{
    let mut index: usize = 0;
    while index < processes.len()
        invariant
            index <= processes.len(),
            forall|i: int|
                0 <= i < index ==> (!(#[trigger] processes@[i]).autostart
                    || processes@[i].current_run is Some),
        decreases processes.len() - index,
    {
        let process = &processes[index];
        if process.autostart && process.current_run.is_none() {
            proof {
                assert(processes@[index as int].autostart);
            }
            return false;
        }
        index = index + 1;
    }
    true
}

fn every_idle(processes: &Vec<ProcessSnapshot>) -> (r: bool)
    ensures
        r == all_idle(processes@),
{
    let mut index: usize = 0;
    while index < processes.len()
        invariant
            index <= processes.len(),
            forall|i: int| 0 <= i < index ==> (#[trigger] processes@[i]).current_run is None,
        decreases processes.len() - index,
    {
        if processes[index].current_run.is_some() {
            proof {
                assert(processes@[index as int].current_run is Some);
            }
            return false;
        }
        index = index + 1;
    }
    true
}

fn every_true(values: &Vec<bool>) -> (r: bool)
    ensures
        r == all_true(values@),
{
    let mut index: usize = 0;
    while index < values.len()
        invariant
            index <= values.len(),
            forall|i: int| 0 <= i < index ==> #[trigger] values@[i],
        decreases values.len() - index,
    {
        if !values[index] {
            proof {
                assert(!values@[index as int]);
            }
            return false;
        }
        index = index + 1;
    }
    true
}

/// The answer to one snapshot. `truncated` says of each noisy Process whether
/// its retained output was cut.
pub open spec fn pressure_next(
    phase: PressurePhase,
    snapshot: ProjectSnapshot,
    truncated: Seq<bool>,
) -> (PressurePhase, PressureStepView) {
    match phase {
        PressurePhase::Starting => if !all_running(snapshot.processes@) {
            (phase, PressureStepView::Wait)
        } else if !all_owning(snapshot.processes@) {
            (
                phase,
                PressureStepView::Stop(
                    VerdictView::Broken(
                        "every autostart Process must own a Run before the pressure phase"@,
                    ),
                ),
            )
        } else {
            (PressurePhase::Flooding, PressureStepView::Advance(seq![]))
        },
        PressurePhase::Flooding => if all_true(truncated) {
            (
                PressurePhase::Stopping,
                PressureStepView::Advance(seq![CommandRequest::Stop("quiet"@)]),
            )
        } else {
            (phase, PressureStepView::Wait)
        },
        PressurePhase::Stopping => match snapshot.find("quiet"@) {
            Some(process) if process.current_run is None => if process.failure is Some {
                (
                    phase,
                    PressureStepView::Stop(
                        VerdictView::Broken("a clean stop must not read as a failure"@),
                    ),
                )
            } else {
                (
                    PressurePhase::Draining,
                    PressureStepView::Advance(seq![CommandRequest::StopAll]),
                )
            },
            _ => (phase, PressureStepView::Wait),
        },
        PressurePhase::Draining => if all_idle(snapshot.processes@) {
            (PressurePhase::Finished, PressureStepView::Advance(seq![]))
        } else {
            (phase, PressureStepView::Wait)
        },
        PressurePhase::Finished => (phase, PressureStepView::Advance(seq![])),
    }
}

fn no_commands() -> (r: PressureStep)
    ensures
        r@ == PressureStepView::Advance(seq![]),
{
    let commands: Vec<Command> = Vec::new();
    proof {
        assert(commands@.map_values(|command: Command| command@) =~= seq![]);
    }
    PressureStep::Advance(commands)
}

fn one_command(command: Command) -> (r: PressureStep)
    ensures
        r@ == PressureStepView::Advance(seq![command@]),
{
    let commands = vec![command];
    proof {
        assert(commands@.map_values(|command: Command| command@) =~= seq![command@]);
    }
    PressureStep::Advance(commands)
}

/// Takes one snapshot into the pressure proof.
pub fn pressure_step(
    phase: PressurePhase,
    snapshot: &ProjectSnapshot,
    truncated: &Vec<bool>,
) -> (r: (PressurePhase, PressureStep))
    ensures
        (r.0, r.1@) == pressure_next(phase, *snapshot, truncated@),
{
    match phase {
        PressurePhase::Starting => if !every_running(&snapshot.processes) {
            (phase, PressureStep::Wait)
        } else if !every_owning(&snapshot.processes) {
            (
                phase,
                PressureStep::Stop(
                    Verdict::broken(
                        "every autostart Process must own a Run before the pressure phase",
                    ),
                ),
            )
        } else {
            (PressurePhase::Flooding, no_commands())
        },
        PressurePhase::Flooding => if every_true(truncated) {
            (PressurePhase::Stopping, one_command(Command::Stop("quiet".to_owned())))
        } else {
            (phase, PressureStep::Wait)
        },
        PressurePhase::Stopping => {
            let process = match snapshot.named("quiet") {
                Some(process) => process,
                None => {
                    return (phase, PressureStep::Wait);
                },
            };
            if process.current_run.is_some() {
                return (phase, PressureStep::Wait);
            }
            if process.failure.is_some() {
                return (
                    phase,
                    PressureStep::Stop(
                        Verdict::broken("a clean stop must not read as a failure"),
                    ),
                );
            }
            (PressurePhase::Draining, one_command(Command::StopAll))
        },
        PressurePhase::Draining => if every_idle(&snapshot.processes) {
            (PressurePhase::Finished, no_commands())
        } else {
            (phase, PressureStep::Wait)
        },
        PressurePhase::Finished => (phase, no_commands()),
    }
}

/// The words for what was seen of each noisy Process.
pub open spec fn flags_text(values: Seq<bool>) -> Seq<char> {
    "["@ + joined(
        values.map_values(
            |value: bool|
                if value {
                    "true"@
                } else {
                    "false"@
                },
        ),
        ", "@,
    ) + "]"@
}

fn show_flags(values: &Vec<bool>) -> (r: String)
    ensures
        r@ == flags_text(values@),
{
    let ghost all = values@.map_values(
        |value: bool|
            if value {
                "true"@
            } else {
                "false"@
            },
    );
    let mut shown: Vec<String> = Vec::new();
    let mut index: usize = 0;
    proof {
        assert(texts(shown@) =~= all.take(0));
    }
    while index < values.len()
        invariant
            index <= values.len(),
            all == values@.map_values(
                |value: bool|
                    if value {
                        "true"@
                    } else {
                        "false"@
                    },
            ),
            texts(shown@) == all.take(index as int),
        decreases values.len() - index,
    {
        let ghost before = texts(shown@);
        let word = if values[index] {
            "true".to_owned()
        } else {
            "false".to_owned()
        };
        shown.push(word);
        proof {
            assert(texts(shown@) =~= before.push(word@));
            assert(all.take(index + 1) =~= all.take(index as int).push(word@));
        }
        index = index + 1;
    }
    proof {
        assert(all.take(index as int) =~= all);
    }
    let list = join(&shown, ", ");
    concat3("[", list.as_str(), "]")
}

/// What is said of a phase that took too long.
pub open spec fn overdue(phase: PressurePhase, truncated: Seq<bool>) -> Seq<char> {
    match phase {
        PressurePhase::Flooding => "not every noisy Process truncated within the bound: "@
            + flags_text(truncated),
        PressurePhase::Stopping => "a stop issued into flooded output did not finish in time"@,
        _ => "the phase did not finish within its bound"@,
    }
}

/// What is said of a phase that took too long.
pub fn overdue_message(phase: PressurePhase, truncated: &Vec<bool>) -> (r: String)
    ensures
        r@ == overdue(phase, truncated@),
{
    match phase {
        PressurePhase::Flooding => {
            let flags = show_flags(truncated);
            concat2("not every noisy Process truncated within the bound: ", flags.as_str())
        },
        PressurePhase::Stopping => "a stop issued into flooded output did not finish in time".to_owned(),
        _ => "the phase did not finish within its bound".to_owned(),
    }
}

/// How long a phase may take, in seconds.
pub fn phase_limit(phase: PressurePhase) -> (r: u64)
    ensures
        r == (if phase == PressurePhase::Stopping {
            COMMAND_DEADLINE
        } else {
            PHASE_WAIT
        }),
{
    match phase {
        PressurePhase::Stopping => COMMAND_DEADLINE,
        _ => PHASE_WAIT,
    }
}

/// The output of one Process as it was seen.
pub struct SeenOutput {
    pub truncated: bool,
    pub chunks: Vec<RetainedChunk>,
}

/// What the driver saw: the output of each Process that has one, and how long
/// the stop took.
pub struct PressureObservation {
    pub outputs: Vec<Option<SeenOutput>>,
    pub latency: Duration,
}

impl PressureObservation {
    /// Every output fits into memory.
    pub open spec fn wf(&self) -> bool {
        forall|i: int|
            0 <= i < self.outputs@.len() && (#[trigger] self.outputs@[i]) is Some ==> {
                let chunks = self.outputs@[i]->0.chunks@;
                retained_size(chunks, chunks.len() as int) <= usize::MAX
            }
    }
}

/// The outputs among the first `count` that were cut.
pub open spec fn truncated_count(outputs: Seq<Option<SeenOutput>>, count: int) -> int
    decreases count,
{
    if count <= 0 || count > outputs.len() {
        0
    } else if outputs[count - 1] matches Some(seen) && seen.truncated {
        truncated_count(outputs, count - 1) + 1
    } else {
        truncated_count(outputs, count - 1)
    }
}

/// The bytes of seen output.
pub open spec fn seen_bytes(output: Option<SeenOutput>) -> int {
    match output {
        Some(seen) => retained_size(seen.chunks@, seen.chunks@.len() as int) as int,
        None => 0,
    }
}

/// The chunks of seen output.
pub open spec fn seen_chunks(output: Option<SeenOutput>) -> int {
    match output {
        Some(seen) => seen.chunks@.len() as int,
        None => 0,
    }
}

/// Whether a number is the largest of a measure over all outputs, or zero.
pub open spec fn is_largest(
    outputs: Seq<Option<SeenOutput>>,
    measure: spec_fn(Option<SeenOutput>) -> int,
    count: int,
    largest: int,
) -> bool {
    &&& forall|i: int| 0 <= i < count ==> measure(#[trigger] outputs[i]) <= largest
    &&& largest == 0 || exists|i: int| 0 <= i < count && measure(#[trigger] outputs[i]) == largest
}

/// Whether a report is what an observation gives.
pub open spec fn reports(observation: PressureObservation, report: OutputPressureReport) -> bool {
    let outputs = observation.outputs@;
    let count = outputs.len() as int;
    &&& report.noisy_processes == 3
    &&& report.truncated_processes == truncated_count(outputs, count)
    &&& is_largest(
        outputs,
        |output: Option<SeenOutput>| seen_bytes(output),
        count,
        report.max_retained_bytes as int,
    )
    &&& is_largest(
        outputs,
        |output: Option<SeenOutput>| seen_chunks(output),
        count,
        report.max_retained_chunks as int,
    )
    &&& report.command_latency_ms == observation.latency.total_millis()
}

/// Sums up what was seen under pressure.
pub fn pressure_report(observation: &PressureObservation) -> (r: OutputPressureReport)
    requires
        observation.wf(),
    ensures
        reports(*observation, r),
{
    let ghost outputs = observation.outputs@;
    let ghost bytes_of = |output: Option<SeenOutput>| seen_bytes(output);
    let ghost chunks_of = |output: Option<SeenOutput>| seen_chunks(output);
    let mut max_retained_bytes: usize = 0;
    let mut max_retained_chunks: usize = 0;
    let mut truncated_processes: usize = 0;
    let mut index: usize = 0;
    while index < observation.outputs.len()
        invariant
            index <= observation.outputs.len(),
            observation.wf(),
            outputs == observation.outputs@,
            bytes_of == (|output: Option<SeenOutput>| seen_bytes(output)),
            chunks_of == (|output: Option<SeenOutput>| seen_chunks(output)),
            truncated_processes == truncated_count(outputs, index as int),
            truncated_processes <= index,
            is_largest(outputs, bytes_of, index as int, max_retained_bytes as int),
            is_largest(outputs, chunks_of, index as int, max_retained_chunks as int),
        decreases observation.outputs.len() - index,
    {
        let ghost bytes_before = max_retained_bytes;
        let ghost chunks_before = max_retained_chunks;
        if let Some(seen) = &observation.outputs[index] {
            proof {
                assert(outputs[index as int] is Some);
            }
            if seen.truncated {
                truncated_processes = truncated_processes + 1;
            }
            let bytes: usize = retained_bytes(&seen.chunks);
            if bytes > max_retained_bytes {
                max_retained_bytes = bytes;
            }
            if seen.chunks.len() > max_retained_chunks {
                max_retained_chunks = seen.chunks.len();
            }
        }
        proof {
            largest_grows(outputs, bytes_of, index as int, bytes_before as int);
            largest_grows(outputs, chunks_of, index as int, chunks_before as int);
        }
        index = index + 1;
    }
    OutputPressureReport {
        noisy_processes: 3,
        truncated_processes,
        max_retained_bytes,
        max_retained_chunks,
        command_latency_ms: observation.latency.as_millis(),
    }
}

proof fn largest_grows(
    outputs: Seq<Option<SeenOutput>>,
    measure: spec_fn(Option<SeenOutput>) -> int,
    count: int,
    largest: int,
)
    requires
        0 <= count < outputs.len(),
        is_largest(outputs, measure, count, largest),
    ensures
        measure(outputs[count]) > largest ==> is_largest(
            outputs,
            measure,
            count + 1,
            measure(outputs[count]),
        ),
        measure(outputs[count]) <= largest ==> is_largest(outputs, measure, count + 1, largest),
{
    let value = measure(outputs[count]);
    if value <= largest && largest != 0 {
        let witness = choose|i: int| 0 <= i < count && measure(#[trigger] outputs[i]) == largest;
        assert(measure(outputs[witness]) == largest);
    }
}

/// Run the multi-Process output pressure fixture. `drive` runs the proof on
/// the Project, whose Processes work in `working_dir`.
pub fn run_output_pressure_fixture<
    F: FnOnce(EffectiveProject) -> Result<PressureObservation, String>,
>(working_dir: &str, drive: F) -> (r: Result<OutputPressureReport, String>)
    requires
        forall|project: EffectiveProject| project.wf() ==> #[trigger] drive.requires((project,)),
        forall|project: EffectiveProject, observation: Result<PressureObservation, String>|
            #[trigger] drive.ensures((project,), observation) && observation is Ok
                ==> observation->Ok_0.wf(),
    ensures
        exists|project: EffectiveProject, observation: Result<PressureObservation, String>|
            {
                &&& project.wf()
                &&& project.current().processes == pressure_processes(working_dir@)
                &&& #[trigger] drive.ensures((project,), observation)
                &&& match observation {
                    Ok(observation) => r matches Ok(report) && reports(observation, report),
                    Err(message) => r matches Err(text) && text == message,
                }
            },
{
    let processes = vec![
        noisy_process("noisy-0", working_dir),
        noisy_process("noisy-1", working_dir),
        noisy_process("noisy-2", working_dir),
        quiet_process("quiet", true, working_dir),
        quiet_process("manual", false, working_dir),
    ];
    proof {
        pressure_project_is_valid(working_dir@);
        assert(process_views(processes@) =~= pressure_processes(working_dir@));
    }
    let project = match EffectiveProject::new(processes) {
        Ok(project) => project,
        Err(error) => {
            return Err(
                concat2(
                    "the pressure Project is invalid: ",
                    format_project_error(&error).as_str(),
                ),
            );
        },
    };
    match drive(project) {
        Ok(observation) => Ok(pressure_report(&observation)),
        Err(message) => Err(message),
    }
}

} // verus!
