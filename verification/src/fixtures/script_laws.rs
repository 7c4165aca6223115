//! What holds of the scripts: what ends a step, and what ends a proof.

use vstd::prelude::*;

#[allow(unused_imports)]
use super::checks::VerdictView;
#[allow(unused_imports)]
use super::retained::{any_marks, any_says, max_tick_in, RetainedChunk};
#[allow(unused_imports)]
use crate::console::ConsoleState;
#[allow(unused_imports)]
use crate::interaction::CommandRequest;
#[allow(unused_imports)]
use crate::interaction_fixture::{
    at_start, cleanup_fault, console_verdict, selection_verdict, shutdown_reading,
    start_reading, text_verdict, ProofStep, Role, TICK_PREFIX,
};
#[allow(unused_imports)]
use crate::lifecycle_fixture::{
    both_attempts, own_sample, process_answer, renewed, rerun_verdict, script_answer,
    FixtureProcesses,
    ScriptAction, ScriptAnswerView, ScriptStep,
};
#[allow(unused_imports)]
use crate::output_pressure::{
    all_idle, all_owning, all_running, all_true, pressure_next, PressurePhase, PressureStepView,
};
#[allow(unused_imports)]
use crate::project_fixture::{processes_verdict, shutdown_verdict};
#[allow(unused_imports)]
use crate::scan::holds;
#[allow(unused_imports)]
use crate::snapshot::{Lifecycle, ProcessSnapshot, ProjectSnapshot};
#[allow(unused_imports)]
use crate::terminal_fixture::{event_fault, TerminalEvent};
#[allow(unused_imports)]
use crate::terminal_script::{
    ascii_byte, ascii_bytes, burst_answer, delivery_answer, events_fault, first_backpressure, state_answer,
    text_answer, AnswerView, PasteRejection, PasteState, Sight,
};

verus! {

/// Events fault exactly where one of them does.
pub proof fn one_bad_event_is_enough(events: Seq<TerminalEvent>, full: Seq<char>, from: int)
    requires
        0 <= from <= events.len(),
    ensures
        events_fault(events, full, from) is Some <==> exists|i: int|
            from <= i < events.len() && ((#[trigger] events[i]) is Failed
                || events[i] is InputBackpressure),
    decreases events.len() - from,
{
    if from < events.len() {
        one_bad_event_is_enough(events, full, from + 1);
        if events[from] is Failed || events[from] is InputBackpressure {
            assert(events_fault(events, full, from) is Some);
        }
    }
}

/// The first event that counts decides: a full queue is noted, a failure is an
/// error, and other events are passed over.
pub proof fn the_first_backpressure_counts(events: Seq<TerminalEvent>, from: int)
    requires
        0 <= from <= events.len(),
    ensures
        first_backpressure(events, from) == Ok::<Option<Seq<char>>, Seq<char>>(None) <==> forall|
            i: int,
        |
            from <= i < events.len() ==> !((#[trigger] events[i]) is Failed)
                && !(events[i] is InputBackpressure),
        from < events.len() && events[from] is Failed ==> first_backpressure(events, from) is Err,
        from < events.len() && events[from] is InputBackpressure ==> (first_backpressure(
            events,
            from,
        ) matches Ok(Some(_))),
    decreases events.len() - from,
{
    if from < events.len() {
        the_first_backpressure_counts(events, from + 1);
    }
}

/// A step that waits for a text goes on once the text is shown; events that
/// ended the child end the step first, unless the step is new.
pub proof fn shown_texts_end_the_wait(sight: Sight, fresh: bool, shown: bool, then: AnswerView)
    ensures
        fresh && shown ==> text_answer(sight, fresh, shown, then) == then,
        fresh && !shown ==> text_answer(sight, fresh, shown, then) == AnswerView::Wait,
        !fresh && (forall|i: int|
            0 <= i < sight.events@.len() ==> !((#[trigger] sight.events@[i]) is Failed)
                && !(sight.events@[i] is InputBackpressure)) ==> text_answer(
            sight,
            fresh,
            shown,
            then,
        ) == (if shown {
            then
        } else {
            AnswerView::Wait
        }),
        forall|full: Seq<char>|
            (exists|i: int|
                0 <= i < sight.events@.len() && (#[trigger] sight.events@[i]) is Failed)
                ==> #[trigger] state_answer(sight, full, shown, then) is Fail,
{
    one_bad_event_is_enough(
        sight.events@,
        "fixture filled the bounded child-input queue"@,
        0,
    );
    assert forall|full: Seq<char>|
        (exists|i: int| 0 <= i < sight.events@.len() && (#[trigger] sight.events@[i]) is Failed)
            implies #[trigger] state_answer(sight, full, shown, then) is Fail by {
        one_bad_event_is_enough(sight.events@, full, 0);
    }
}

/// A paste is waited for while it is under way, is done once it is delivered,
/// and fails otherwise; a burst is done once it is refused for being busy.
pub proof fn pastes_end_as_they_end(paste: PasteState, label: Seq<char>, sent: int)
    requires
        0 < sent,
    ensures
        delivery_answer(paste, label) is Done <==> paste is Delivered,
        delivery_answer(paste, label) is Wait <==> paste is Unsent || paste is Pending,
        delivery_answer(paste, label) is Fail <==> paste is Rejected || paste is Failed,
        burst_answer(paste, sent) is Done <==> (paste matches PasteState::Rejected { kind, .. }
            && kind == PasteRejection::Busy),
        burst_answer(paste, sent) is Repeat ==> sent < 8,
        burst_answer(paste, 0) is Repeat,
{
}

proof fn a_plain_letter_is_its_byte(letter: char)
    requires
        (letter as u32) < 128,
    ensures
        ascii_byte(letter) as u32 == letter as u32,
{
    assert(ascii_byte(letter) == letter as u8);
}

/// Plain text is sent byte for byte.
pub proof fn plain_text_is_sent_as_it_is(text: Seq<char>, at: int)
    requires
        0 <= at < text.len(),
        (text[at] as u32) < 128,
    ensures
        ascii_bytes(text).len() == text.len(),
        ascii_bytes(text)[at] as u32 == text[at] as u32,
{
    a_plain_letter_is_its_byte(text[at]);
    assert(ascii_bytes(text)[at] == ascii_byte(text[at]));
}

/// The pressure proof goes from phase to phase and never back: it floods once
/// everything runs, stops one Process once all output was cut, stops all once
/// that one stopped cleanly, and ends once nothing runs.
pub proof fn pressure_goes_on_when_it_may(
    phase: PressurePhase,
    snapshot: ProjectSnapshot,
    truncated: Seq<bool>,
)
    ensures
        ({
            let (next, step) = pressure_next(phase, snapshot, truncated);
            &&& phase is Starting ==> (next is Flooding <==> all_running(snapshot.processes@)
                && all_owning(snapshot.processes@))
            &&& phase is Flooding ==> (next is Stopping <==> all_true(truncated))
            &&& phase is Flooding && next is Stopping ==> step == PressureStepView::Advance(
                seq![CommandRequest::Stop("quiet"@)],
            )
            &&& phase is Stopping ==> (next is Draining <==> (snapshot.find("quiet"@) matches Some(
                process,
            ) && process.current_run is None && process.failure is None))
            &&& phase is Stopping && next is Draining ==> step == PressureStepView::Advance(
                seq![CommandRequest::StopAll],
            )
            &&& phase is Draining ==> (next is Finished <==> all_idle(snapshot.processes@))
            &&& step is Wait || step is Stop ==> next == phase
        }),
{
}

/// The script of a lifecycle proof waits until a Process reaches the state it
/// asks for, and a Run is new only where its number is higher.
pub proof fn awaited_states_end_the_wait(
    process: ProcessSnapshot,
    index: usize,
    lifecycle: Lifecycle,
    run: u64,
    now: u64,
    remembered: u64,
)
    ensures
        process_answer(ScriptStep::Reach(index, lifecycle), process, now, remembered) is Done
            <==> process.lifecycle == lifecycle,
        process_answer(ScriptStep::ReachRun(index, run), process, now, remembered) is Done
            <==> process.current_run == Some(run),
        process_answer(ScriptStep::Renew(index), process, now, remembered) is Done ==> (
        process.current_run matches Some(current) && current > remembered && process.lifecycle
            == Lifecycle::Running),
        process_answer(ScriptStep::Calm(index), process, now, remembered) is Done
            <==> process.failure is None,
        process_answer(ScriptStep::Sampled(index), process, now, remembered) is Done
            <==> process.metrics is Some,
        process_answer(ScriptStep::OwnSample(index), process, now, remembered) is Done ==> (
        process.metrics matches Some(metrics) && process.current_run == Some(metrics.run_id)
            && metrics.rss_kib > 0),
{
}

/// A script moves the selection until it stands where it should.
pub proof fn moves_end_at_their_target(
    snapshot: ProjectSnapshot,
    selected: usize,
    target: usize,
    remembered: u64,
    direction: crate::console::SelectionMove,
)
    ensures
        script_answer(ScriptStep::MoveTo(target, direction), snapshot, selected, remembered)
            == (if selected == target {
            ScriptAnswerView::Done
        } else {
            ScriptAnswerView::Repeat(ScriptAction::Move(direction))
        }),
        script_answer(ScriptStep::Selected(target), snapshot, selected, remembered) is Done
            <==> selected == target,
        selection_verdict(selected, target) == VerdictView::Met <==> selected == target,
{
}

/// A shutdown passes where no Process failed and none was left over.
pub proof fn clean_shutdowns_pass(processes: Seq<ProcessSnapshot>, from: int)
    requires
        0 <= from <= processes.len(),
    ensures
        cleanup_fault(processes, from) is None <==> forall|i: int|
            from <= i < processes.len() ==> (#[trigger] processes[i]).failure is None,
    decreases processes.len() - from,
{
    if from < processes.len() {
        clean_shutdowns_pass(processes, from + 1);
    }
}

/// The proof starts once every Process stands as it should at the start.
pub proof fn proofs_start_when_all_stand(processes: Seq<ProcessSnapshot>, from: int)
    requires
        0 <= from <= processes.len(),
    ensures
        start_reading(processes, from) == Ok::<bool, Seq<char>>(true) <==> forall|i: int|
            from <= i < processes.len() ==> at_start(#[trigger] processes[i]) == Some(true),
    decreases processes.len() - from,
{
    if from < processes.len() {
        proofs_start_when_all_stand(processes, from + 1);
    }
}

/// What a step of the proof expects of the Console is met exactly where it is
/// so.
pub proof fn expectations_are_met_as_stated(
    state: ConsoleState,
    snapshot: ProjectSnapshot,
    roles: FixtureProcesses,
    mode: crate::console::ConsoleViewMode,
    warning: crate::console::ConsoleWarning,
)
    ensures
        console_verdict(ProofStep::Mode(mode), state, snapshot, roles) == VerdictView::Met
            <==> state.view.mode == mode,
        console_verdict(ProofStep::Warning(warning), state, snapshot, roles) == VerdictView::Met
            <==> state.view.warning == Some(warning),
{
}

/// A text that is waited for or must be there is met where it is shown, and one
/// that must not be there where it is not.
pub proof fn texts_are_met_as_stated(
    text: Seq<char>,
    role: Role,
    needle: &'static str,
    message: &'static str,
    count: u32,
)
    ensures
        text_verdict(ProofStep::WaitText(role, needle), text) == VerdictView::Met <==> holds(
            text,
            needle@,
        ),
        text_verdict(ProofStep::Present(role, needle, message), text) == VerdictView::Met <==> holds(
            text,
            needle@,
        ),
        text_verdict(ProofStep::Absent(role, needle, message), text) == VerdictView::Met
            <==> !holds(text, needle@),
        max_tick_in(text, TICK_PREFIX@) matches Some(tick) ==> (text_verdict(
            ProofStep::WaitTick(role, count),
            text,
        ) == VerdictView::Met <==> tick >= count),
{
}

/// A rerun passes where both Runs left their marker and the output is there.
pub proof fn reruns_leave_both_runs(chunks: Seq<RetainedChunk>)
    ensures
        rerun_verdict(chunks) == VerdictView::Met <==> any_marks(chunks, 1) && any_marks(chunks, 2)
            && any_says(chunks, "oneoff-run ok"@),
{
}

/// A Project that shut down in time, with nothing left over and no restart
/// pending, passes; one that ran into its deadline or left something does not.
pub proof fn late_shutdowns_do_not_pass(snapshot: ProjectSnapshot)
    ensures
        snapshot.shutdown is None ==> shutdown_verdict(snapshot) is Broken,
        snapshot.shutdown matches Some(result) ==> (result.timed_out || result.failures@.len() > 0
            ==> shutdown_verdict(snapshot) is Failed),
        shutdown_verdict(snapshot) == VerdictView::Met ==> forall|i: int|
            0 <= i < snapshot.processes@.len() ==> (
            #[trigger] snapshot.processes@[i]).restart_backoff is None,
{
    no_restart_is_pending(snapshot.processes@, 0);
}

proof fn no_restart_is_pending(processes: Seq<ProcessSnapshot>, from: int)
    requires
        0 <= from <= processes.len(),
    ensures
        processes_verdict(processes, from) is None ==> forall|i: int|
            from <= i < processes.len() ==> (#[trigger] processes[i]).restart_backoff is None,
    decreases processes.len() - from,
{
    if from < processes.len() {
        no_restart_is_pending(processes, from + 1);
    }
}

} // verus!
