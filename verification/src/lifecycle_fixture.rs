//! The lifecycle, metrics and rerun proofs of the interaction fixture:
//! lifecycle commands target the selected Process through the Supervisor, a
//! manual stop finishes as Stopped, a restart brings the next Run back, and a
//! clean cycle leaves no failure behind.

use vstd::prelude::*;

use crate::console::SelectionMove;
use crate::fixtures::checks::Verdict;
use crate::fixtures::retained::{has_marker, has_text, RetainedChunk};
use crate::snapshot::{Lifecycle, ProcessSnapshot, ProjectSnapshot, RunExit};

#[allow(unused_imports)]
use crate::fixtures::checks::VerdictView;
#[allow(unused_imports)]
use crate::fixtures::retained::{any_marks, any_says};

verus! {

/// The fixture's Processes, by role.
#[derive(Clone, Copy, Debug, PartialEq, Eq, Structural)]
pub struct FixtureProcesses {
    pub focused: usize,
    pub mute: usize,
    pub piped: usize,
    pub oneoff: usize,
}

/// One step of a proof.
#[derive(Clone, Copy, Debug, PartialEq, Eq, Structural)]
pub enum ScriptStep {
    /// Press a project key over the selected Process.
    Press(char),
    /// Move the selection once.
    Move(SelectionMove),
    /// Move the selection until it rests on a Process.
    MoveTo(usize, SelectionMove),
    /// The selection rests on a Process.
    Selected(usize),
    /// Wait for a Process to get into a lifecycle state.
    Reach(usize, Lifecycle),
    /// Wait for a Process to have a Run.
    ReachRun(usize, u64),
    /// Take down the Run that a Process has.
    Remember(usize),
    /// Wait for a Process to run a later Run than the one taken down.
    Renew(usize),
    /// A Process has no failure.
    Calm(usize),
    /// Restart a Process through the Supervisor.
    Restart(usize),
    /// Wait for a later Run that has its identity but no sample yet.
    Unsampled(usize),
    /// Wait for a Process to have a process identity, and check its stamps.
    Identified(usize),
    /// Wait for any sample of a Process.
    Sampled(usize),
    /// Wait for a sample of the current Run, and check that it shows memory.
    OwnSample(usize),
    /// Both Runs of a One-shot are in its summaries.
    BothRuns(usize),
    /// Both Runs of a One-shot left their markers and their output.
    BothOutputs(usize),
}

/// What the driver does for a step.
#[derive(Clone, Copy, Debug, PartialEq, Eq, Structural)]
pub enum ScriptAction {
    Press(char),
    Move(SelectionMove),
    Restart(usize),
    /// Read the retained output of a Process and check it.
    ReadOutput(usize),
}

/// The answer to a step.
#[derive(Clone, Debug, PartialEq, Eq)]
pub enum ScriptAnswer {
    /// The step is not over.
    Wait,
    /// The step is over.
    Done,
    /// The step is over once the driver did this.
    Act(ScriptAction),
    /// The driver does this, and the step goes on.
    Repeat(ScriptAction),
    /// The proof is over without success.
    Stop(Verdict),
}

/// The answer to a step as mathematical values.
pub enum ScriptAnswerView {
    Wait,
    Done,
    Act(ScriptAction),
    Repeat(ScriptAction),
    Stop(VerdictView),
}

impl View for ScriptAnswer {
    type V = ScriptAnswerView;

    open spec fn view(&self) -> ScriptAnswerView {
        match *self {
            ScriptAnswer::Wait => ScriptAnswerView::Wait,
            ScriptAnswer::Done => ScriptAnswerView::Done,
            ScriptAnswer::Act(action) => ScriptAnswerView::Act(action),
            ScriptAnswer::Repeat(action) => ScriptAnswerView::Repeat(action),
            ScriptAnswer::Stop(verdict) => ScriptAnswerView::Stop(verdict@),
        }
    }
}

/// Waiting until a condition holds.
pub open spec fn once(condition: bool) -> ScriptAnswerView {
    if condition {
        ScriptAnswerView::Done
    } else {
        ScriptAnswerView::Wait
    }
}

/// Something that must hold.
pub open spec fn must(condition: bool, message: Seq<char>) -> ScriptAnswerView {
    if condition {
        ScriptAnswerView::Done
    } else {
        ScriptAnswerView::Stop(VerdictView::Broken(message))
    }
}

fn wait_until(condition: bool) -> (r: ScriptAnswer)
    ensures
        r@ == once(condition),
{
    if condition {
        ScriptAnswer::Done
    } else {
        ScriptAnswer::Wait
    }
}

fn insist(condition: bool, message: &str) -> (r: ScriptAnswer)
    ensures
        r@ == must(condition, message@),
{
    if condition {
        ScriptAnswer::Done
    } else {
        ScriptAnswer::Stop(Verdict::broken(message))
    }
}

/// Whether a Process has a later Run than one.
pub open spec fn renewed(process: ProcessSnapshot, run: u64) -> bool {
    process.current_run matches Some(current) && current > run
}

/// Whether a Process shows a process identity.
pub open spec fn identified(process: ProcessSnapshot) -> bool {
    process.root_pid matches Some(pid) && pid > 0
}

/// Whether the session time is not before the start of a Run.
pub open spec fn stamped(process: ProcessSnapshot, now: u64) -> bool {
    process.run_started_at_ms matches Some(started) && now >= started
}

/// Whether the sample of a Process is of its current Run.
pub open spec fn own_sample(process: ProcessSnapshot) -> bool {
    process.current_run matches Some(run) && process.metrics matches Some(metrics)
        && metrics.run_id == run
}

/// Whether both attempts of a One-shot are summed up, the latest first.
pub open spec fn both_attempts(process: ProcessSnapshot) -> bool {
    let runs = process.recent_runs@;
    &&& runs.len() == 2
    &&& runs[0].run_id == 2
    &&& runs[0].exit == RunExit::Success
    &&& !runs[0].intentional_stop
    &&& runs[1].run_id == 1
    &&& runs[1].exit == RunExit::Success
}

/// The position of the Process that a step looks at.
pub open spec fn subject(step: ScriptStep) -> Option<usize> {
    match step {
        ScriptStep::Press(_) | ScriptStep::Move(_) => None,
        ScriptStep::MoveTo(_, _) | ScriptStep::Selected(_) => None,
        ScriptStep::Reach(index, _) => Some(index),
        ScriptStep::ReachRun(index, _) => Some(index),
        ScriptStep::Remember(index) => Some(index),
        ScriptStep::Renew(index) => Some(index),
        ScriptStep::Calm(index) => Some(index),
        ScriptStep::Restart(index) => Some(index),
        ScriptStep::Unsampled(index) => Some(index),
        ScriptStep::Identified(index) => Some(index),
        ScriptStep::Sampled(index) => Some(index),
        ScriptStep::OwnSample(index) => Some(index),
        ScriptStep::BothRuns(index) => Some(index),
        ScriptStep::BothOutputs(index) => Some(index),
    }
}

/// The answer to a step that looks at a Process.
pub open spec fn process_answer(
    step: ScriptStep,
    process: ProcessSnapshot,
    now: u64,
    remembered: u64,
) -> ScriptAnswerView {
    match step {
        ScriptStep::Reach(_, lifecycle) => once(process.lifecycle == lifecycle),
        ScriptStep::ReachRun(_, run) => once(process.current_run == Some(run)),
        ScriptStep::Remember(_) => must(
            process.current_run is Some,
            "the Process has a live Run before its restart"@,
        ),
        ScriptStep::Renew(_) => once(
            renewed(process, remembered) && process.lifecycle == Lifecycle::Running,
        ),
        ScriptStep::Calm(_) => must(
            process.failure is None,
            "a clean stop and restart leaves no failure behind"@,
        ),
        ScriptStep::Restart(index) => ScriptAnswerView::Act(ScriptAction::Restart(index)),
        ScriptStep::Unsampled(_) => once(
            renewed(process, remembered) && process.metrics is None && identified(process)
                && stamped(process, now),
        ),
        ScriptStep::Identified(_) => if !identified(process) {
            ScriptAnswerView::Wait
        } else if process.run_started_at_ms is None {
            ScriptAnswerView::Stop(
                VerdictView::Broken("an active Run carries its start stamp"@),
            )
        } else {
            must(
                stamped(process, now),
                "the session time never trails the Run's start stamp"@,
            )
        },
        ScriptStep::Sampled(_) => once(process.metrics is Some),
        ScriptStep::OwnSample(_) => if own_sample(process) {
            must(
                process.metrics->0.rss_kib > 0,
                "a live sample reports its resident memory"@,
            )
        } else {
            ScriptAnswerView::Wait
        },
        ScriptStep::BothRuns(_) => must(
            both_attempts(process),
            "the summary window keeps both attempts"@,
        ),
        ScriptStep::BothOutputs(index) => ScriptAnswerView::Act(ScriptAction::ReadOutput(index)),
        _ => ScriptAnswerView::Done,
    }
}

/// The answer to a step.
pub open spec fn script_answer(
    step: ScriptStep,
    snapshot: ProjectSnapshot,
    selected: usize,
    remembered: u64,
) -> ScriptAnswerView {
    match step {
        ScriptStep::Press(key) => ScriptAnswerView::Act(ScriptAction::Press(key)),
        ScriptStep::Move(direction) => ScriptAnswerView::Act(ScriptAction::Move(direction)),
        ScriptStep::MoveTo(index, direction) => if selected == index {
            ScriptAnswerView::Done
        } else {
            ScriptAnswerView::Repeat(ScriptAction::Move(direction))
        },
        ScriptStep::Selected(index) => must(
            selected == index,
            "the selection must move and clamp exactly like the app"@,
        ),
        _ => {
            let index = subject(step)->0;
            if index >= snapshot.processes@.len() {
                ScriptAnswerView::Stop(
                    VerdictView::Broken("the fixture keeps its Processes"@),
                )
            } else {
                process_answer(
                    step,
                    snapshot.processes@[index as int],
                    snapshot.now_ms,
                    remembered,
                )
            }
        },
    }
}

fn is_renewed(process: &ProcessSnapshot, run: u64) -> (r: bool)
    ensures
        r == renewed(*process, run),
{
    match process.current_run {
        Some(current) => current > run,
        None => false,
    }
}

fn is_identified(process: &ProcessSnapshot) -> (r: bool)
    ensures
        r == identified(*process),
{
    match process.root_pid {
        Some(pid) => pid > 0,
        None => false,
    }
}

fn is_stamped(process: &ProcessSnapshot, now: u64) -> (r: bool)
    ensures
        r == stamped(*process, now),
{
    match process.run_started_at_ms {
        Some(started) => now >= started,
        None => false,
    }
}

fn answer_sample(process: &ProcessSnapshot) -> (r: ScriptAnswer)
    ensures
        r@ == (if own_sample(*process) {
            must(
                process.metrics->0.rss_kib > 0,
                "a live sample reports its resident memory"@,
            )
        } else {
            ScriptAnswerView::Wait
        }),
{
    match (&process.current_run, &process.metrics) {
        (Some(run), Some(metrics)) => if metrics.run_id == *run {
            insist(metrics.rss_kib > 0, "a live sample reports its resident memory")
        } else {
            ScriptAnswer::Wait
        },
        _ => ScriptAnswer::Wait,
    }
}

fn answer_identity(process: &ProcessSnapshot, now: u64) -> (r: ScriptAnswer)
    ensures
        r@ == process_answer(ScriptStep::Identified(0), *process, now, 0),
{
    if !is_identified(process) {
        return ScriptAnswer::Wait;
    }
    if process.run_started_at_ms.is_none() {
        return ScriptAnswer::Stop(Verdict::broken("an active Run carries its start stamp"));
    }
    insist(is_stamped(process, now), "the session time never trails the Run's start stamp")
}

fn has_both_attempts(process: &ProcessSnapshot) -> (r: bool)
    ensures
        r == both_attempts(*process),
{
    let runs = &process.recent_runs;
    runs.len() == 2 && runs[0].run_id == 2 && runs[0].exit == RunExit::Success
        && !runs[0].intentional_stop && runs[1].run_id == 1 && runs[1].exit == RunExit::Success
}

fn answer_process(
    step: ScriptStep,
    process: &ProcessSnapshot,
    now: u64,
    remembered: u64,
) -> (r: ScriptAnswer)
    ensures
        r@ == process_answer(step, *process, now, remembered),
{
    match step {
        ScriptStep::Reach(_, lifecycle) => wait_until(process.lifecycle == lifecycle),
        ScriptStep::ReachRun(_, run) => wait_until(process.current_run == Some(run)),
        ScriptStep::Remember(_) => insist(
            process.current_run.is_some(),
            "the Process has a live Run before its restart",
        ),
        ScriptStep::Renew(_) => wait_until(
            is_renewed(process, remembered) && process.lifecycle == Lifecycle::Running,
        ),
        ScriptStep::Calm(_) => insist(
            process.failure.is_none(),
            "a clean stop and restart leaves no failure behind",
        ),
        ScriptStep::Restart(index) => ScriptAnswer::Act(ScriptAction::Restart(index)),
        ScriptStep::Unsampled(_) => wait_until(
            is_renewed(process, remembered) && process.metrics.is_none() && is_identified(process)
                && is_stamped(process, now),
        ),
        ScriptStep::Identified(_) => answer_identity(process, now),
        ScriptStep::Sampled(_) => wait_until(process.metrics.is_some()),
        ScriptStep::OwnSample(_) => answer_sample(process),
        ScriptStep::BothRuns(_) => insist(
            has_both_attempts(process),
            "the summary window keeps both attempts",
        ),
        ScriptStep::BothOutputs(index) => ScriptAnswer::Act(ScriptAction::ReadOutput(index)),
        _ => ScriptAnswer::Done,
    }
}

fn step_subject(step: ScriptStep) -> (r: Option<usize>)
    ensures
        r == subject(step),
{
    match step {
        ScriptStep::Press(_) | ScriptStep::Move(_) => None,
        ScriptStep::MoveTo(_, _) | ScriptStep::Selected(_) => None,
        ScriptStep::Reach(index, _) => Some(index),
        ScriptStep::ReachRun(index, _) => Some(index),
        ScriptStep::Remember(index) => Some(index),
        ScriptStep::Renew(index) => Some(index),
        ScriptStep::Calm(index) => Some(index),
        ScriptStep::Restart(index) => Some(index),
        ScriptStep::Unsampled(index) => Some(index),
        ScriptStep::Identified(index) => Some(index),
        ScriptStep::Sampled(index) => Some(index),
        ScriptStep::OwnSample(index) => Some(index),
        ScriptStep::BothRuns(index) => Some(index),
        ScriptStep::BothOutputs(index) => Some(index),
    }
}

/// Takes one snapshot into a step.
pub fn answer_step(
    step: ScriptStep,
    snapshot: &ProjectSnapshot,
    selected: usize,
    remembered: u64,
) -> (r: ScriptAnswer)
    ensures
        r@ == script_answer(step, *snapshot, selected, remembered),
{
    match step {
        ScriptStep::Press(key) => ScriptAnswer::Act(ScriptAction::Press(key)),
        ScriptStep::Move(direction) => ScriptAnswer::Act(ScriptAction::Move(direction)),
        ScriptStep::MoveTo(index, direction) => if selected == index {
            ScriptAnswer::Done
        } else {
            ScriptAnswer::Repeat(ScriptAction::Move(direction))
        },
        ScriptStep::Selected(index) => insist(
            selected == index,
            "the selection must move and clamp exactly like the app",
        ),
        _ => {
            let index: usize = match step_subject(step) {
                Some(index) => index,
                None => 0,
            };
            if index >= snapshot.processes.len() {
                return ScriptAnswer::Stop(Verdict::broken("the fixture keeps its Processes"));
            }
            answer_process(step, &snapshot.processes[index], snapshot.now_ms, remembered)
        },
    }
}

/// A proof under way: its steps, the next one, and the Run taken down.
pub struct ScriptRun {
    pub steps: Vec<ScriptStep>,
    pub at: usize,
    pub remembered: u64,
}

/// A proof under way as mathematical values.
pub struct ScriptState {
    pub steps: Seq<ScriptStep>,
    pub at: int,
    pub remembered: u64,
}

impl View for ScriptRun {
    type V = ScriptState;

    open spec fn view(&self) -> ScriptState {
        ScriptState { steps: self.steps@, at: self.at as int, remembered: self.remembered }
    }
}

impl ScriptState {
    /// The proof after one snapshot, with the answer. `None` is a finished
    /// proof.
    pub open spec fn next(self, snapshot: ProjectSnapshot, selected: usize) -> (
        ScriptState,
        Option<ScriptAnswerView>,
    ) {
        if self.at >= self.steps.len() {
            (self, None)
        } else {
            let step = self.steps[self.at];
            let answer = script_answer(step, snapshot, selected, self.remembered);
            let remembered = match step {
                ScriptStep::Remember(index) => if answer is Done {
                    snapshot.processes@[index as int].current_run->0
                } else {
                    self.remembered
                },
                _ => self.remembered,
            };
            let over = answer is Done || answer is Act;
            (
                ScriptState {
                    at: if over {
                        self.at + 1
                    } else {
                        self.at
                    },
                    remembered,
                    ..self
                },
                Some(answer),
            )
        }
    }
}

impl ScriptRun {
    /// A script at its first step.
    pub fn new(steps: Vec<ScriptStep>) -> (r: Self)
        ensures
            r@ == (ScriptState { steps: steps@, at: 0, remembered: 0 }),
    {
        ScriptRun { steps, at: 0, remembered: 0 }
    }

    /// Takes one snapshot into the proof.
    pub fn take(&mut self, snapshot: &ProjectSnapshot, selected: usize) -> (r: Option<
        ScriptAnswer,
    >)
        ensures
            (final(self)@, match r {
                Some(answer) => Some(answer@),
                None => None,
            }) == old(self)@.next(*snapshot, selected),
    {
        if self.at >= self.steps.len() {
            return None;
        }
        let step = self.steps[self.at];
        let answer = answer_step(step, snapshot, selected, self.remembered);
        match &answer {
            ScriptAnswer::Done => {
                if let ScriptStep::Remember(index) = step {
                    self.remembered = snapshot.processes[index].current_run.unwrap();
                }
                self.at = self.at + 1;
            },
            ScriptAnswer::Act(_) => {
                self.at = self.at + 1;
            },
            _ => {},
        }
        Some(answer)
    }
}

/// The steps of the lifecycle proof.
pub open spec fn lifecycle_script(roles: FixtureProcesses) -> Seq<ScriptStep> {
    seq![
        ScriptStep::Press('x'),
        ScriptStep::Reach(roles.focused, Lifecycle::Stopped),
        ScriptStep::Calm(roles.focused),
        ScriptStep::Press('s'),
        ScriptStep::Reach(roles.focused, Lifecycle::Running),
        ScriptStep::Remember(roles.focused),
        ScriptStep::Press('r'),
        ScriptStep::Renew(roles.focused),
        ScriptStep::Calm(roles.focused),
        ScriptStep::Move(SelectionMove::Down),
        ScriptStep::Selected(roles.mute),
        ScriptStep::Press('x'),
        ScriptStep::Reach(roles.mute, Lifecycle::Stopped),
        ScriptStep::Press('s'),
        ScriptStep::Reach(roles.mute, Lifecycle::Running),
        ScriptStep::Move(SelectionMove::Down),
        ScriptStep::Selected(roles.piped),
        ScriptStep::Press('x'),
        ScriptStep::Reach(roles.piped, Lifecycle::Stopped),
        ScriptStep::Press('s'),
        ScriptStep::Reach(roles.piped, Lifecycle::Running),
        ScriptStep::Move(SelectionMove::Up),
        ScriptStep::Move(SelectionMove::Up),
        ScriptStep::Selected(roles.focused),
    ]
}

/// Stop, start and restart the selected Process, then each of the others.
pub fn prove_lifecycle(roles: FixtureProcesses) -> (r: ScriptRun)
    ensures
        r@ == (ScriptState { steps: lifecycle_script(roles), at: 0, remembered: 0 }),
{
    let steps = vec![
        ScriptStep::Press('x'),
        ScriptStep::Reach(roles.focused, Lifecycle::Stopped),
        ScriptStep::Calm(roles.focused),
        ScriptStep::Press('s'),
        ScriptStep::Reach(roles.focused, Lifecycle::Running),
        ScriptStep::Remember(roles.focused),
        ScriptStep::Press('r'),
        ScriptStep::Renew(roles.focused),
        ScriptStep::Calm(roles.focused),
        ScriptStep::Move(SelectionMove::Down),
        ScriptStep::Selected(roles.mute),
        ScriptStep::Press('x'),
        ScriptStep::Reach(roles.mute, Lifecycle::Stopped),
        ScriptStep::Press('s'),
        ScriptStep::Reach(roles.mute, Lifecycle::Running),
        ScriptStep::Move(SelectionMove::Down),
        ScriptStep::Selected(roles.piped),
        ScriptStep::Press('x'),
        ScriptStep::Reach(roles.piped, Lifecycle::Stopped),
        ScriptStep::Press('s'),
        ScriptStep::Reach(roles.piped, Lifecycle::Running),
        ScriptStep::Move(SelectionMove::Up),
        ScriptStep::Move(SelectionMove::Up),
        ScriptStep::Selected(roles.focused),
    ];
    proof {
        assert(steps@ =~= lifecycle_script(roles));
    }
    ScriptRun::new(steps)
}

/// A fresh Run is readable before its first sample.
pub fn prove_metrics_degradation(focused: usize) -> (r: ScriptRun)
    ensures
        r@.steps == seq![
            ScriptStep::Remember(focused),
            ScriptStep::Restart(focused),
            ScriptStep::Unsampled(focused),
        ],
        r@.at == 0,
        r@.remembered == 0,
{
    let steps = vec![
        ScriptStep::Remember(focused),
        ScriptStep::Restart(focused),
        ScriptStep::Unsampled(focused),
    ];
    proof {
        assert(steps@ =~= seq![
            ScriptStep::Remember(focused),
            ScriptStep::Restart(focused),
            ScriptStep::Unsampled(focused),
        ]);
    }
    ScriptRun::new(steps)
}

/// A sample of the active Run arrives in time.
pub fn prove_metrics(focused: usize) -> (r: ScriptRun)
    ensures
        r@.steps == seq![
            ScriptStep::MoveTo(focused, SelectionMove::Up),
            ScriptStep::Identified(focused),
            ScriptStep::Sampled(focused),
            ScriptStep::OwnSample(focused),
        ],
        r@.at == 0,
        r@.remembered == 0,
{
    let steps = vec![
        ScriptStep::MoveTo(focused, SelectionMove::Up),
        ScriptStep::Identified(focused),
        ScriptStep::Sampled(focused),
        ScriptStep::OwnSample(focused),
    ];
    proof {
        assert(steps@ =~= seq![
            ScriptStep::MoveTo(focused, SelectionMove::Up),
            ScriptStep::Identified(focused),
            ScriptStep::Sampled(focused),
            ScriptStep::OwnSample(focused),
        ]);
    }
    ScriptRun::new(steps)
}

/// The steps of the rerun proof.
pub open spec fn rerun_script(oneoff: usize) -> Seq<ScriptStep> {
    seq![
        ScriptStep::MoveTo(oneoff, SelectionMove::Down),
        ScriptStep::Press('s'),
        ScriptStep::Reach(oneoff, Lifecycle::Done),
        ScriptStep::Calm(oneoff),
        ScriptStep::Press('r'),
        ScriptStep::ReachRun(oneoff, 2),
        ScriptStep::Reach(oneoff, Lifecycle::Done),
        ScriptStep::BothRuns(oneoff),
        ScriptStep::BothOutputs(oneoff),
        ScriptStep::MoveTo(0, SelectionMove::Up),
    ]
}

/// Run the One-shot, run it again, and find both attempts.
pub fn prove_rerun(oneoff: usize) -> (r: ScriptRun)
    ensures
        r@ == (ScriptState { steps: rerun_script(oneoff), at: 0, remembered: 0 }),
{
    let steps = vec![
        ScriptStep::MoveTo(oneoff, SelectionMove::Down),
        ScriptStep::Press('s'),
        ScriptStep::Reach(oneoff, Lifecycle::Done),
        ScriptStep::Calm(oneoff),
        ScriptStep::Press('r'),
        ScriptStep::ReachRun(oneoff, 2),
        ScriptStep::Reach(oneoff, Lifecycle::Done),
        ScriptStep::BothRuns(oneoff),
        ScriptStep::BothOutputs(oneoff),
        ScriptStep::MoveTo(0, SelectionMove::Up),
    ];
    proof {
        assert(steps@ =~= rerun_script(oneoff));
    }
    ScriptRun::new(steps)
}

/// Checks that both attempts of the One-shot left their output.
pub open spec fn rerun_verdict(chunks: Seq<RetainedChunk>) -> VerdictView {
    if !any_marks(chunks, 1) || !any_marks(chunks, 2) {
        VerdictView::Broken("both attempts must keep their Run marker inside the bounds"@)
    } else if !any_says(chunks, "oneoff-run ok"@) {
        VerdictView::Broken("the One-shot's output stays retained"@)
    } else {
        VerdictView::Met
    }
}

/// Checks that both attempts of the One-shot left their output.
pub fn check_rerun_output(chunks: &Vec<RetainedChunk>) -> (r: Verdict)
    ensures
        r@ == rerun_verdict(chunks@),
{
    if !has_marker(chunks, 1) || !has_marker(chunks, 2) {
        return Verdict::broken("both attempts must keep their Run marker inside the bounds");
    }
    if !has_text(chunks, "oneoff-run ok") {
        return Verdict::broken("the One-shot's output stays retained");
    }
    Verdict::Met
}

/// The steps of a proof are taken in order: one snapshot moves it by one step
/// at most, and never back.
pub proof fn steps_are_taken_in_order(
    state: ScriptState,
    snapshot: ProjectSnapshot,
    selected: usize,
)
    ensures
        state.next(snapshot, selected).0.steps == state.steps,
        state.at <= state.next(snapshot, selected).0.at <= state.at + 1,
        state.next(snapshot, selected).0.at == state.at + 1 <==> (state.next(
            snapshot,
            selected,
        ).1 matches Some(answer) && (answer is Done || answer is Act)),
{
}

} // verus!
