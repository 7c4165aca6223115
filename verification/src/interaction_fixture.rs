//! The multi-Process interaction fixture: a headless proof of terminal
//! operation across Process selection. It drives the console interaction, the
//! terminals and the retained pipe output the way the event loop does, and
//! gives observable checkpoints.

use vstd::prelude::*;

use crate::console::{
    ConsoleInteraction, ConsolePaneKind, ConsoleStep, ConsoleViewMode, ConsoleWarning,
    SelectionMove,
};
use crate::fixtures::checks::Verdict;
use crate::fixtures::retained::{last_tick, max_tick, second_input_line_has_zero_three};
use crate::input::{KeyCode, KeyEvent, KeyModifiers};
use crate::lifecycle::LifecycleCommand;
use crate::lifecycle_fixture::FixtureProcesses;
use crate::model::TerminalMode;
use crate::process_logs::ProcessLogs;
use crate::scan::contains;
use crate::snapshot::{Lifecycle, ProcessSnapshot, ProjectSnapshot};
use crate::text::{concat2, concat3, concat4, decimal_u64, same_text};

#[allow(unused_imports)]
use crate::console::{moved_selections, ConsoleState};
#[allow(unused_imports)]
use crate::fixtures::checks::VerdictView;
#[allow(unused_imports)]
use crate::fixtures::retained::{last_tick_in, max_tick_in, second_line_interrupted};
#[allow(unused_imports)]
use crate::input::KeyEventKind;
#[allow(unused_imports)]
use crate::process_logs::LogsState;
#[allow(unused_imports)]
use crate::scan::holds;
#[allow(unused_imports)]
use crate::snapshot::named_from;
#[allow(unused_imports)]
use crate::text::decimal_text;

verus! {

/// How long one condition may take, in seconds.
pub const WAIT: u64 = 15;

/// The console pane height the fixture drives; the real app measures it.
pub const PAGE_ROWS: u16 = 20;

/// The key that moves the keyboard between the Process list and the console.
pub open spec fn leader_key() -> KeyEvent {
    KeyEvent {
        code: KeyCode::Char('a'),
        modifiers: KeyModifiers { shift: false, control: true, alt: false, other: false },
        kind: KeyEventKind::Press,
    }
}

/// A pressed key without modifiers.
pub open spec fn plain_key(code: KeyCode) -> KeyEvent {
    KeyEvent {
        code,
        modifiers: KeyModifiers { shift: false, control: false, alt: false, other: false },
        kind: KeyEventKind::Press,
    }
}

/// The key that moves the keyboard between the Process list and the console.
pub fn leader() -> (r: KeyEvent)
    ensures
        r == leader_key(),
{
    KeyEvent::new(
        KeyCode::Char('a'),
        KeyModifiers { shift: false, control: true, alt: false, other: false },
    )
}

/// One key without modifiers.
pub fn key(code: KeyCode) -> (r: KeyEvent)
    ensures
        r == plain_key(code),
{
    KeyEvent::new(
        code,
        KeyModifiers { shift: false, control: false, alt: false, other: false },
    )
}

/// Whether a Process is where the fixture expects it at the start; `None` for
/// a Process that the fixture does not have.
pub open spec fn at_start(process: ProcessSnapshot) -> Option<bool> {
    if process.name@ == "focused"@ || process.name@ == "mute"@ || process.name@ == "piped"@ {
        Some(process.lifecycle == Lifecycle::Running)
    } else if process.name@ == "oneoff"@ {
        Some(process.lifecycle == Lifecycle::Idle)
    } else {
        None
    }
}

/// The start of the fixture, from Process `from` on: whether it is over, or
/// what is wrong with it.
pub open spec fn start_reading(processes: Seq<ProcessSnapshot>, from: int) -> Result<bool, Seq<char>>
    decreases processes.len() - from,
{
    if from < 0 || from >= processes.len() {
        Ok(true)
    } else {
        match at_start(processes[from]) {
            None => Err("the fixture contract changed: "@ + processes[from].name@),
            Some(false) => Ok(false),
            Some(true) => start_reading(processes, from + 1),
        }
    }
}

fn process_at_start(process: &ProcessSnapshot) -> (r: Option<bool>)
    ensures
        r == at_start(*process),
{
    let name = process.name.as_str();
    if same_text(name, "focused") || same_text(name, "mute") || same_text(name, "piped") {
        Some(process.lifecycle == Lifecycle::Running)
    } else if same_text(name, "oneoff") {
        Some(process.lifecycle == Lifecycle::Idle)
    } else {
        None
    }
}

/// Whether the fixture has started.
pub fn has_started(snapshot: &ProjectSnapshot) -> (r: Result<bool, String>)
    ensures
        (match r {
            Ok(over) => Ok(over),
            Err(message) => Err(message@),
        }) == start_reading(snapshot.processes@, 0),
{
    let mut index: usize = 0;
    while index < snapshot.processes.len()
        invariant
            index <= snapshot.processes.len(),
            start_reading(snapshot.processes@, 0) == start_reading(
                snapshot.processes@,
                index as int,
            ),
        decreases snapshot.processes.len() - index,
    {
        let process = &snapshot.processes[index];
        match process_at_start(process) {
            None => {
                return Err(concat2("the fixture contract changed: ", process.name.as_str()));
            },
            Some(started) => if !started {
                return Ok(false);
            },
        }
        index = index + 1;
    }
    Ok(true)
}

/// The position of a Process of the fixture.
pub open spec fn role_reading(snapshot: ProjectSnapshot, name: Seq<char>) -> Result<
    int,
    Seq<char>,
> {
    match named_from(snapshot.processes@, name, 0) {
        Some(index) => Ok(index),
        None => Err("Process "@ + name + " is part of the fixture contract"@),
    }
}

fn find_role(snapshot: &ProjectSnapshot, name: &str) -> (r: Result<usize, String>)
    ensures
        (match r {
            Ok(index) => Ok(index as int),
            Err(message) => Err(message@),
        }) == role_reading(*snapshot, name@),
{
    let mut index: usize = 0;
    while index < snapshot.processes.len()
        invariant
            index <= snapshot.processes.len(),
            named_from(snapshot.processes@, name@, 0) == named_from(
                snapshot.processes@,
                name@,
                index as int,
            ),
        decreases snapshot.processes.len() - index,
    {
        if same_text(snapshot.processes[index].name.as_str(), name) {
            return Ok(index);
        }
        index = index + 1;
    }
    Err(concat3("Process ", name, " is part of the fixture contract"))
}

/// The positions of the Processes of the fixture.
pub fn find_roles(snapshot: &ProjectSnapshot) -> (r: Result<FixtureProcesses, String>)
    ensures
        match r {
            Ok(roles) => {
                &&& role_reading(*snapshot, "focused"@) == Ok::<int, Seq<char>>(
                    roles.focused as int,
                )
                &&& role_reading(*snapshot, "mute"@) == Ok::<int, Seq<char>>(roles.mute as int)
                &&& role_reading(*snapshot, "piped"@) == Ok::<int, Seq<char>>(roles.piped as int)
                &&& role_reading(*snapshot, "oneoff"@) == Ok::<int, Seq<char>>(
                    roles.oneoff as int,
                )
            },
            Err(message) => {
                let name = if role_reading(*snapshot, "focused"@) is Err {
                    "focused"@
                } else if role_reading(*snapshot, "mute"@) is Err {
                    "mute"@
                } else if role_reading(*snapshot, "piped"@) is Err {
                    "piped"@
                } else {
                    "oneoff"@
                };
                role_reading(*snapshot, name) == Err::<int, Seq<char>>(message@)
            },
        },
{
    let focused: usize = match find_role(snapshot, "focused") {
        Ok(index) => index,
        Err(message) => {
            return Err(message);
        },
    };
    let mute: usize = match find_role(snapshot, "mute") {
        Ok(index) => index,
        Err(message) => {
            return Err(message);
        },
    };
    let piped: usize = match find_role(snapshot, "piped") {
        Ok(index) => index,
        Err(message) => {
            return Err(message);
        },
    };
    let oneoff: usize = match find_role(snapshot, "oneoff") {
        Ok(index) => index,
        Err(message) => {
            return Err(message);
        },
    };
    Ok(FixtureProcesses { focused, mute, piped, oneoff })
}

/// The console, the Logs and the answers after the first `count` keys.
pub open spec fn routed_keys(
    state: ConsoleState,
    logs: LogsState,
    pane: ConsolePaneKind,
    input_focused: bool,
    keys: Seq<KeyEvent>,
    count: int,
) -> (ConsoleState, LogsState, Seq<ConsoleStep>)
    decreases count,
{
    if count <= 0 || count > keys.len() {
        (state, logs, Seq::empty())
    } else {
        let (before, logs_before, steps) = routed_keys(
            state,
            logs,
            pane,
            input_focused,
            keys,
            count - 1,
        );
        let (after, logs_after, step) = before.routed(
            pane,
            input_focused,
            keys[count - 1],
            logs_before,
            PAGE_ROWS,
        );
        (after, logs_after, steps.push(step))
    }
}

/// Route keys through the seam that the event loop uses.
pub fn route_keys(
    console: &mut ConsoleInteraction,
    logs: &mut ProcessLogs,
    pane: ConsolePaneKind,
    input_focused: bool,
    keys: &Vec<KeyEvent>,
) -> (r: Vec<ConsoleStep>)
    ensures
        (final(console).state(), final(logs)@, r@) == routed_keys(
            old(console).state(),
            old(logs)@,
            pane,
            input_focused,
            keys@,
            keys@.len() as int,
        ),
{
    let ghost state = console.state();
    let ghost start = logs@;
    let mut steps: Vec<ConsoleStep> = Vec::new();
    let mut index: usize = 0;
    while index < keys.len()
        invariant
            index <= keys.len(),
            (console.state(), logs@, steps@) == routed_keys(
                state,
                start,
                pane,
                input_focused,
                keys@,
                index as int,
            ),
        decreases keys.len() - index,
    {
        let step = console.route_pane_key(pane, input_focused, keys[index], logs, PAGE_ROWS);
        steps.push(step);
        index = index + 1;
    }
    steps
}

/// The keys that ask for one selection move, wherever the keyboard is.
pub open spec fn move_keys(mode: ConsoleViewMode, direction: SelectionMove) -> Seq<KeyEvent> {
    let step = plain_key(
        match direction {
            SelectionMove::Down => KeyCode::Char('j'),
            SelectionMove::Up => KeyCode::Char('k'),
        },
    );
    if mode == ConsoleViewMode::ProcessList {
        seq![step]
    } else {
        seq![leader_key(), step]
    }
}

/// The keys that ask for one selection move, wherever the keyboard is.
pub fn move_selection_key(mode: ConsoleViewMode, direction: SelectionMove) -> (r: Vec<KeyEvent>)
    ensures
        r@ == move_keys(mode, direction),
{
    let step = key(
        match direction {
            SelectionMove::Down => KeyCode::Char('j'),
            SelectionMove::Up => KeyCode::Char('k'),
        },
    );
    let keys = if mode == ConsoleViewMode::ProcessList {
        vec![step]
    } else {
        vec![leader(), step]
    };
    proof {
        assert(keys@ =~= move_keys(mode, direction));
    }
    keys
}

proof fn leader_leads_to_the_list(
    state: ConsoleState,
    logs: LogsState,
    pane: ConsolePaneKind,
    input_focused: bool,
)
    requires
        state.view.mode != ConsoleViewMode::ProcessList,
    ensures
        ({
            let after = state.routed(pane, input_focused, leader_key(), logs, PAGE_ROWS).0;
            &&& after.view.mode == ConsoleViewMode::ProcessList
            &&& after.moves == state.moves
            &&& after.commands == state.commands
        }),
{
    reveal(ConsoleState::routed);
}

proof fn step_is_asked_for(
    state: ConsoleState,
    logs: LogsState,
    pane: ConsolePaneKind,
    input_focused: bool,
    direction: SelectionMove,
)
    requires
        state.view.mode == ConsoleViewMode::ProcessList,
    ensures
        ({
            let after = state.routed(
                pane,
                input_focused,
                move_keys(ConsoleViewMode::ProcessList, direction)[0],
                logs,
                PAGE_ROWS,
            ).0;
            &&& after.view.mode == ConsoleViewMode::ProcessList
            &&& after.moves == state.moves.push(direction)
            &&& after.commands == state.commands
        }),
{
    reveal(ConsoleState::routed);
}

/// Over a terminal and over Logs alike, the move keys ask for exactly one
/// selection move, leave the keyboard on the Process list and queue no
/// lifecycle command.
pub proof fn move_keys_ask_for_one_move(
    state: ConsoleState,
    logs: LogsState,
    pane: ConsolePaneKind,
    input_focused: bool,
    direction: SelectionMove,
)
    ensures
        ({
            let keys = move_keys(state.view.mode, direction);
            let after = routed_keys(
                state,
                logs,
                pane,
                input_focused,
                keys,
                keys.len() as int,
            ).0;
            &&& after.moves == state.moves.push(direction)
            &&& after.view.mode == ConsoleViewMode::ProcessList
            &&& after.commands == state.commands
        }),
{
    let keys = move_keys(state.view.mode, direction);
    reveal_with_fuel(routed_keys, 3);
    if state.view.mode == ConsoleViewMode::ProcessList {
        step_is_asked_for(state, logs, pane, input_focused, direction);
    } else {
        leader_leads_to_the_list(state, logs, pane, input_focused);
        let (there, logs_there, _) = state.routed(
            pane,
            input_focused,
            leader_key(),
            logs,
            PAGE_ROWS,
        );
        step_is_asked_for(there, logs_there, pane, input_focused, direction);
        assert(keys[1] == move_keys(ConsoleViewMode::ProcessList, direction)[0]);
    }
}

/// Ask for one selection move through the pane that has the keys, and apply
/// it the way the event loop does: moves clamp at the list ends, and a moved
/// selection clears the pane-scoped warning.
pub fn apply_move(
    console: &mut ConsoleInteraction,
    logs: &mut ProcessLogs,
    pane: ConsolePaneKind,
    input_focused: bool,
    selected: &mut usize,
    process_count: usize,
    direction: SelectionMove,
) -> (r: Vec<ConsoleStep>)
    requires
        process_count > 0,
        old(console).state().moves.len() == 0,
        *old(selected) < process_count,
    ensures
        *final(selected) == moved_selections(
            *old(selected) as int,
            seq![direction],
            process_count as int,
        ),
        final(console).state().view.mode == ConsoleViewMode::ProcessList,
        ({
            let keys = move_keys(old(console).state().view.mode, direction);
            let (routed, shown, steps) = routed_keys(
                old(console).state(),
                old(logs)@,
                pane,
                input_focused,
                keys,
                keys.len() as int,
            );
            &&& final(console).state() == (ConsoleState {
                moves: Seq::empty(),
                view: routed.view.without_pane_warning(),
                ..routed
            })
            &&& final(logs)@ == shown
            &&& r@ == steps
        }),
{
    let ghost before = console.state();
    let keys = move_selection_key(console.view().mode, direction);
    proof {
        move_keys_ask_for_one_move(before, logs@, pane, input_focused, direction);
    }
    let steps = route_keys(console, logs, pane, input_focused, &keys);
    proof {
        assert(console.state().moves =~= seq![direction]);
    }
    console.apply_selection_moves(selected, process_count);
    steps
}

/// What a Process shows.
pub fn pane_of(process: &ProcessSnapshot) -> (r: ConsolePaneKind)
    ensures
        r == (if process.terminal_mode == TerminalMode::Pty && process.current_run is Some
            && (process.lifecycle == Lifecycle::Starting || process.lifecycle
            == Lifecycle::Running) {
            ConsolePaneKind::Terminal
        } else {
            ConsolePaneKind::Pipe
        }),
{
    if process.terminal_mode == TerminalMode::Pty && process.current_run.is_some() && (
    process.lifecycle == Lifecycle::Starting || process.lifecycle == Lifecycle::Running) {
        ConsolePaneKind::Terminal
    } else {
        ConsolePaneKind::Pipe
    }
}

/// A Process of the fixture.
#[derive(Clone, Copy, Debug, PartialEq, Eq, Structural)]
pub enum Role {
    Focused,
    Mute,
    Piped,
}

/// A proof of its own within the fixture.
#[derive(Clone, Copy, Debug, PartialEq, Eq, Structural)]
pub enum ProofSection {
    Lifecycle,
    MetricsDegradation,
    Metrics,
    Rerun,
    Ingest,
}

/// One step of the proof.
#[derive(Clone, Copy, Debug)]
pub enum ProofStep {
    /// Wait for the tick counter of a console.
    WaitTick(Role, u32),
    /// Wait for a text on a console.
    WaitText(Role, &'static str),
    /// Wait for a child to report the interrupt byte.
    WaitInterrupt(Role),
    /// One key over the pane of a Process.
    Key(Role, KeyCode),
    /// The key that moves the keyboard between list and console.
    Leader(Role),
    /// The interrupt key of a child.
    Interrupt(Role),
    /// The keyboard is here.
    Mode(ConsoleViewMode),
    /// This warning is visible.
    Warning(ConsoleWarning),
    ClearWarning,
    /// The last key over the pane of a Process was taken.
    Taken(Role),
    /// The Logs of a Process are one page above their tail.
    Paged(Role),
    /// The Logs of a Process follow their tail.
    Follows(Role),
    /// Exactly this lifecycle command was asked for.
    Commands(LifecycleCommand),
    /// A Process takes no child input.
    TakesNoInput(Role),
    /// A console does not show a text, or else.
    Absent(Role, &'static str, &'static str),
    /// A console shows a text, or else.
    Present(Role, &'static str, &'static str),
    /// Move the selection, which then rests on a Process.
    Move(SelectionMove, Role),
    /// Give a terminal columns and rows.
    Resize(Role, u16, u16),
    Section(ProofSection),
    Checkpoint(&'static str),
}

/// The steps of the proof.
pub open spec fn proof_script() -> Seq<ProofStep> {
    seq![
        ProofStep::WaitTick(Role::Focused, 2),
        ProofStep::WaitTick(Role::Mute, 2),
        ProofStep::Leader(Role::Focused),
        ProofStep::Mode(ConsoleViewMode::Console),
        ProofStep::Key(Role::Focused, KeyCode::Char('x')),
        ProofStep::Key(Role::Focused, KeyCode::Enter),
        ProofStep::WaitText(Role::Focused, "input-hex-1:78"),
        ProofStep::Interrupt(Role::Focused),
        ProofStep::Key(Role::Focused, KeyCode::Enter),
        ProofStep::WaitInterrupt(Role::Focused),
        ProofStep::Leader(Role::Focused),
        ProofStep::Mode(ConsoleViewMode::ProcessList),
        ProofStep::Leader(Role::Focused),
        ProofStep::Mode(ConsoleViewMode::Console),
        ProofStep::Checkpoint("interaction-input-ok"),
        ProofStep::TakesNoInput(Role::Mute),
        ProofStep::ClearWarning,
        ProofStep::Key(Role::Mute, KeyCode::Char('x')),
        ProofStep::Warning(ConsoleWarning::InputDisabled),
        ProofStep::Leader(Role::Mute),
        ProofStep::Mode(ConsoleViewMode::ProcessList),
        ProofStep::Leader(Role::Mute),
        ProofStep::Mode(ConsoleViewMode::Console),
        ProofStep::WaitTick(Role::Mute, 2),
        ProofStep::Absent(
            Role::Mute,
            "mute-input-hex",
            "the disabled-input Process must receive no child input",
        ),
        ProofStep::Key(Role::Piped, KeyCode::Char('x')),
        ProofStep::Taken(Role::Piped),
        ProofStep::Warning(ConsoleWarning::LogsCommandOnly),
        ProofStep::ClearWarning,
        ProofStep::Leader(Role::Piped),
        ProofStep::Taken(Role::Piped),
        ProofStep::Mode(ConsoleViewMode::ProcessList),
        ProofStep::Key(Role::Piped, KeyCode::Char('v')),
        ProofStep::Taken(Role::Piped),
        ProofStep::Warning(ConsoleWarning::SelectionUnavailable),
        ProofStep::ClearWarning,
        ProofStep::Key(Role::Piped, KeyCode::Char('x')),
        ProofStep::Taken(Role::Piped),
        ProofStep::Commands(LifecycleCommand::Stop),
        ProofStep::Key(Role::Piped, KeyCode::PageUp),
        ProofStep::Taken(Role::Piped),
        ProofStep::Paged(Role::Piped),
        ProofStep::Key(Role::Piped, KeyCode::Char('f')),
        ProofStep::Taken(Role::Piped),
        ProofStep::Follows(Role::Piped),
        ProofStep::Checkpoint("interaction-reject-ok"),
        ProofStep::Key(Role::Focused, KeyCode::PageUp),
        ProofStep::Key(Role::Focused, KeyCode::PageUp),
        ProofStep::WaitText(Role::Focused, "focused-ready"),
        ProofStep::Move(SelectionMove::Down, Role::Mute),
        ProofStep::Key(Role::Mute, KeyCode::PageUp),
        ProofStep::Key(Role::Mute, KeyCode::PageUp),
        ProofStep::WaitText(Role::Mute, "mute-ready"),
        ProofStep::Move(SelectionMove::Up, Role::Focused),
        ProofStep::Present(
            Role::Focused,
            "focused-ready",
            "the selection move reset the focused Process's scroll",
        ),
        ProofStep::Present(
            Role::Mute,
            "mute-ready",
            "the selection move reset the muted Process's scroll",
        ),
        ProofStep::Key(Role::Mute, KeyCode::Char('f')),
        ProofStep::Mode(ConsoleViewMode::ProcessList),
        ProofStep::Checkpoint("interaction-scroll-ok"),
        ProofStep::Key(Role::Focused, KeyCode::Char('f')),
        ProofStep::Resize(Role::Focused, 120, 40),
        ProofStep::WaitText(Role::Focused, "win-40 120"),
        ProofStep::Resize(Role::Mute, 100, 30),
        ProofStep::WaitText(Role::Mute, "win-30 100"),
        ProofStep::Present(
            Role::Focused,
            "win-40 120",
            "a resize of one Process changed another Process's terminal",
        ),
        ProofStep::Checkpoint("interaction-resize-ok"),
        ProofStep::Section(ProofSection::Lifecycle),
        ProofStep::Checkpoint("interaction-lifecycle-ok"),
        ProofStep::Section(ProofSection::MetricsDegradation),
        ProofStep::Section(ProofSection::Metrics),
        ProofStep::Checkpoint("interaction-metrics-ok"),
        ProofStep::Section(ProofSection::Rerun),
        ProofStep::Checkpoint("interaction-rerun-ok"),
        ProofStep::Section(ProofSection::Ingest),
        ProofStep::Checkpoint("interaction-ingest-ok"),
    ]
}

/// The proof: input reaches exactly the Process that takes it, refused input
/// is visible, scroll and size belong to one Process, and the selection moves
/// like in the app.
pub fn prove() -> (r: Vec<ProofStep>)
    ensures
        r@ == proof_script(),
{
    let steps = vec![
        ProofStep::WaitTick(Role::Focused, 2),
        ProofStep::WaitTick(Role::Mute, 2),
        ProofStep::Leader(Role::Focused),
        ProofStep::Mode(ConsoleViewMode::Console),
        ProofStep::Key(Role::Focused, KeyCode::Char('x')),
        ProofStep::Key(Role::Focused, KeyCode::Enter),
        ProofStep::WaitText(Role::Focused, "input-hex-1:78"),
        ProofStep::Interrupt(Role::Focused),
        ProofStep::Key(Role::Focused, KeyCode::Enter),
        ProofStep::WaitInterrupt(Role::Focused),
        ProofStep::Leader(Role::Focused),
        ProofStep::Mode(ConsoleViewMode::ProcessList),
        ProofStep::Leader(Role::Focused),
        ProofStep::Mode(ConsoleViewMode::Console),
        ProofStep::Checkpoint("interaction-input-ok"),
        ProofStep::TakesNoInput(Role::Mute),
        ProofStep::ClearWarning,
        ProofStep::Key(Role::Mute, KeyCode::Char('x')),
        ProofStep::Warning(ConsoleWarning::InputDisabled),
        ProofStep::Leader(Role::Mute),
        ProofStep::Mode(ConsoleViewMode::ProcessList),
        ProofStep::Leader(Role::Mute),
        ProofStep::Mode(ConsoleViewMode::Console),
        ProofStep::WaitTick(Role::Mute, 2),
        ProofStep::Absent(
            Role::Mute,
            "mute-input-hex",
            "the disabled-input Process must receive no child input",
        ),
        ProofStep::Key(Role::Piped, KeyCode::Char('x')),
        ProofStep::Taken(Role::Piped),
        ProofStep::Warning(ConsoleWarning::LogsCommandOnly),
        ProofStep::ClearWarning,
        ProofStep::Leader(Role::Piped),
        ProofStep::Taken(Role::Piped),
        ProofStep::Mode(ConsoleViewMode::ProcessList),
        ProofStep::Key(Role::Piped, KeyCode::Char('v')),
        ProofStep::Taken(Role::Piped),
        ProofStep::Warning(ConsoleWarning::SelectionUnavailable),
        ProofStep::ClearWarning,
        ProofStep::Key(Role::Piped, KeyCode::Char('x')),
        ProofStep::Taken(Role::Piped),
        ProofStep::Commands(LifecycleCommand::Stop),
        ProofStep::Key(Role::Piped, KeyCode::PageUp),
        ProofStep::Taken(Role::Piped),
        ProofStep::Paged(Role::Piped),
        ProofStep::Key(Role::Piped, KeyCode::Char('f')),
        ProofStep::Taken(Role::Piped),
        ProofStep::Follows(Role::Piped),
        ProofStep::Checkpoint("interaction-reject-ok"),
        ProofStep::Key(Role::Focused, KeyCode::PageUp),
        ProofStep::Key(Role::Focused, KeyCode::PageUp),
        ProofStep::WaitText(Role::Focused, "focused-ready"),
        ProofStep::Move(SelectionMove::Down, Role::Mute),
        ProofStep::Key(Role::Mute, KeyCode::PageUp),
        ProofStep::Key(Role::Mute, KeyCode::PageUp),
        ProofStep::WaitText(Role::Mute, "mute-ready"),
        ProofStep::Move(SelectionMove::Up, Role::Focused),
        ProofStep::Present(
            Role::Focused,
            "focused-ready",
            "the selection move reset the focused Process's scroll",
        ),
        ProofStep::Present(
            Role::Mute,
            "mute-ready",
            "the selection move reset the muted Process's scroll",
        ),
        ProofStep::Key(Role::Mute, KeyCode::Char('f')),
        ProofStep::Mode(ConsoleViewMode::ProcessList),
        ProofStep::Checkpoint("interaction-scroll-ok"),
        ProofStep::Key(Role::Focused, KeyCode::Char('f')),
        ProofStep::Resize(Role::Focused, 120, 40),
        ProofStep::WaitText(Role::Focused, "win-40 120"),
        ProofStep::Resize(Role::Mute, 100, 30),
        ProofStep::WaitText(Role::Mute, "win-30 100"),
        ProofStep::Present(
            Role::Focused,
            "win-40 120",
            "a resize of one Process changed another Process's terminal",
        ),
        ProofStep::Checkpoint("interaction-resize-ok"),
        ProofStep::Section(ProofSection::Lifecycle),
        ProofStep::Checkpoint("interaction-lifecycle-ok"),
        ProofStep::Section(ProofSection::MetricsDegradation),
        ProofStep::Section(ProofSection::Metrics),
        ProofStep::Checkpoint("interaction-metrics-ok"),
        ProofStep::Section(ProofSection::Rerun),
        ProofStep::Checkpoint("interaction-rerun-ok"),
        ProofStep::Section(ProofSection::Ingest),
        ProofStep::Checkpoint("interaction-ingest-ok"),
    ];
    proof {
        assert(steps@ =~= proof_script());
    }
    steps
}

/// The position of a Process of the fixture.
pub open spec fn role_index(roles: FixtureProcesses, role: Role) -> usize {
    match role {
        Role::Focused => roles.focused,
        Role::Mute => roles.mute,
        Role::Piped => roles.piped,
    }
}

/// The position of a Process of the fixture.
pub fn index_of(roles: &FixtureProcesses, role: Role) -> (r: usize)
    ensures
        r == role_index(*roles, role),
{
    match role {
        Role::Focused => roles.focused,
        Role::Mute => roles.mute,
        Role::Piped => roles.piped,
    }
}

/// The keys of a step, where it has some.
pub open spec fn step_keys(step: ProofStep) -> Option<(Role, KeyEvent)> {
    match step {
        ProofStep::Key(role, code) => Some((role, plain_key(code))),
        ProofStep::Leader(role) => Some((role, leader_key())),
        ProofStep::Interrupt(role) => Some(
            (role, KeyEvent { code: KeyCode::Char('c'), ..leader_key() }),
        ),
        _ => None,
    }
}

/// The key of a step, where it has one, with the Process that it is for.
pub fn key_of(step: &ProofStep) -> (r: Option<(Role, KeyEvent)>)
    ensures
        r == step_keys(*step),
{
    match step {
        ProofStep::Key(role, code) => Some((*role, key(*code))),
        ProofStep::Leader(role) => Some((*role, leader())),
        ProofStep::Interrupt(role) => Some(
            (
                *role,
                KeyEvent::new(
                    KeyCode::Char('c'),
                    KeyModifiers { shift: false, control: true, alt: false, other: false },
                ),
            ),
        ),
        _ => None,
    }
}

/// What is wrong with the console at a step that looks at it.
pub open spec fn console_verdict(
    step: ProofStep,
    state: ConsoleState,
    snapshot: ProjectSnapshot,
    roles: FixtureProcesses,
) -> VerdictView {
    match step {
        ProofStep::Mode(mode) => if state.view.mode == mode {
            VerdictView::Met
        } else {
            VerdictView::Broken("the keyboard is where the key put it"@)
        },
        ProofStep::Warning(warning) => if state.view.warning == Some(warning) {
            VerdictView::Met
        } else {
            VerdictView::Broken("refused input is warned of"@)
        },
        ProofStep::Commands(command) => if state.commands == seq![command] {
            VerdictView::Met
        } else {
            VerdictView::Broken("a lifecycle key asks for one command"@)
        },
        ProofStep::TakesNoInput(role) => if role_index(roles, role) < snapshot.processes@.len()
            && !snapshot.processes@[role_index(roles, role) as int].input_focused {
            VerdictView::Met
        } else {
            VerdictView::Broken("the muted Process takes no input"@)
        },
        _ => VerdictView::Met,
    }
}

/// Checks the console at a step that looks at it. Lifecycle commands are
/// taken out by the look.
pub fn check_console(
    step: &ProofStep,
    console: &mut ConsoleInteraction,
    snapshot: &ProjectSnapshot,
    roles: &FixtureProcesses,
) -> (r: Verdict)
    ensures
        r@ == console_verdict(*step, old(console).state(), *snapshot, *roles),
        final(console).state() == (match *step {
            ProofStep::Commands(_) => ConsoleState {
                commands: Seq::empty(),
                ..old(console).state()
            },
            ProofStep::ClearWarning => ConsoleState {
                view: old(console).state().view.without_pane_warning(),
                ..old(console).state()
            },
            _ => old(console).state(),
        }),
{
    match step {
        ProofStep::Mode(mode) => if console.view().mode == *mode {
            Verdict::Met
        } else {
            Verdict::broken("the keyboard is where the key put it")
        },
        ProofStep::Warning(warning) => if console.view().warning == Some(*warning) {
            Verdict::Met
        } else {
            Verdict::broken("refused input is warned of")
        },
        ProofStep::Commands(command) => {
            let ghost before = console.state();
            let commands = console.take_lifecycle_commands();
            if commands.len() == 1 && commands[0] == *command {
                proof {
                    assert(before.commands =~= seq![*command]);
                }
                Verdict::Met
            } else {
                proof {
                    assert(before.commands.len() != 1 || before.commands[0] != *command);
                }
                Verdict::broken("a lifecycle key asks for one command")
            }
        },
        ProofStep::TakesNoInput(role) => {
            let index: usize = index_of(roles, *role);
            if index < snapshot.processes.len() && !snapshot.processes[index].input_focused {
                Verdict::Met
            } else {
                Verdict::broken("the muted Process takes no input")
            }
        },
        ProofStep::ClearWarning => {
            console.clear_pane_warning();
            Verdict::Met
        },
        _ => Verdict::Met,
    }
}

/// What is wrong with the last key, or with the Logs of a Process, at a step
/// that looks at them.
pub open spec fn pane_verdict(
    step: ProofStep,
    answers: Seq<ConsoleStep>,
    logs: LogsState,
) -> VerdictView {
    match step {
        ProofStep::Taken(_) => if answers.len() > 0 && !(answers.last() is Ignored) {
            VerdictView::Met
        } else {
            VerdictView::Broken("a key over the pane is taken"@)
        },
        ProofStep::Paged(_) => if logs.scroll.above_tail() == Some((PAGE_ROWS - 1) as usize) {
            VerdictView::Met
        } else {
            VerdictView::Broken("one pipe page moves the view one page above the tail"@)
        },
        ProofStep::Follows(_) => if logs.scroll.follows() {
            VerdictView::Met
        } else {
            VerdictView::Broken("the pipe view follows its tail again"@)
        },
        _ => VerdictView::Met,
    }
}

/// Checks the answers to the last keys and the Logs of a Process at a step
/// that looks at them.
pub fn check_pane(step: &ProofStep, answers: &Vec<ConsoleStep>, logs: &ProcessLogs) -> (r: Verdict)
    ensures
        r@ == pane_verdict(*step, answers@, logs@),
{
    match step {
        ProofStep::Taken(_) => {
            if answers.len() == 0 {
                return Verdict::broken("a key over the pane is taken");
            }
            match answers[answers.len() - 1] {
                ConsoleStep::Ignored => Verdict::broken("a key over the pane is taken"),
                _ => Verdict::Met,
            }
        },
        ProofStep::Paged(_) => match logs.lines_above_tail() {
            Some(lines) => if lines == (PAGE_ROWS - 1) as usize {
                Verdict::Met
            } else {
                Verdict::broken("one pipe page moves the view one page above the tail")
            },
            None => Verdict::broken("one pipe page moves the view one page above the tail"),
        },
        ProofStep::Follows(_) => if logs.following() {
            Verdict::Met
        } else {
            Verdict::broken("the pipe view follows its tail again")
        },
        _ => Verdict::Met,
    }
}

/// From the Process list, a page key over Logs that follow their tail is taken
/// and seen as one page above the tail, and the follow key takes it back.
pub proof fn a_pipe_page_is_seen_and_undone(
    state: ConsoleState,
    logs: LogsState,
    input_focused: bool,
)
    requires
        state.view.mode == ConsoleViewMode::ProcessList,
        logs.scroll.follows(),
    ensures
        ({
            let (paged, page, first) = state.routed(
                ConsolePaneKind::Pipe,
                input_focused,
                plain_key(KeyCode::PageUp),
                logs,
                PAGE_ROWS,
            );
            let (back, tail, second) = paged.routed(
                ConsolePaneKind::Pipe,
                input_focused,
                plain_key(KeyCode::Char('f')),
                page,
                PAGE_ROWS,
            );
            &&& pane_verdict(ProofStep::Taken(Role::Piped), seq![first], page) is Met
            &&& pane_verdict(ProofStep::Paged(Role::Piped), seq![first], page) is Met
            &&& pane_verdict(ProofStep::Taken(Role::Piped), seq![second], tail) is Met
            &&& pane_verdict(ProofStep::Follows(Role::Piped), seq![second], tail) is Met
            &&& back.view.mode == ConsoleViewMode::ProcessList
        }),
{
    reveal(ConsoleState::routed);
}

/// What stands before the counter that a console shows.
pub const TICK_PREFIX: &'static str = "tick-";

/// What stands before the counter that the pipe module keeps.
pub const PIPE_TICK_PREFIX: &'static str = "pipe-tick-";

/// A counter, or zero where there is none.
pub open spec fn counted(tick: Option<u32>) -> u32 {
    match tick {
        Some(tick) => tick,
        None => 0,
    }
}

fn count_of(tick: Option<u32>) -> (r: u32)
    ensures
        r == counted(tick),
{
    match tick {
        Some(tick) => tick,
        None => 0,
    }
}

/// The Process whose text a step looks at.
pub open spec fn text_role(step: ProofStep) -> Option<Role> {
    match step {
        ProofStep::WaitTick(role, _) => Some(role),
        ProofStep::WaitText(role, _) => Some(role),
        ProofStep::WaitInterrupt(role) => Some(role),
        ProofStep::Absent(role, _, _) => Some(role),
        ProofStep::Present(role, _, _) => Some(role),
        _ => None,
    }
}

/// The Process whose text a step looks at.
pub fn text_of(step: &ProofStep) -> (r: Option<Role>)
    ensures
        r == text_role(*step),
{
    match step {
        ProofStep::WaitTick(role, _) => Some(*role),
        ProofStep::WaitText(role, _) => Some(*role),
        ProofStep::WaitInterrupt(role) => Some(*role),
        ProofStep::Absent(role, _, _) => Some(*role),
        ProofStep::Present(role, _, _) => Some(*role),
        _ => None,
    }
}

/// What is wrong with the text of a Process at a step that looks at it. A step
/// that waits fails with what is said once its time is over; a step that does
/// not wait is broken.
pub open spec fn text_verdict(step: ProofStep, text: Seq<char>) -> VerdictView {
    match step {
        ProofStep::WaitTick(_, count) => if counted(max_tick_in(text, TICK_PREFIX@)) >= count {
            VerdictView::Met
        } else {
            VerdictView::Failed("the console never reached tick-"@ + decimal_text(count as nat))
        },
        ProofStep::WaitText(_, needle) => if holds(text, needle@) {
            VerdictView::Met
        } else {
            VerdictView::Failed("the fixture proof never reached the console"@)
        },
        ProofStep::WaitInterrupt(_) => if second_line_interrupted(text) {
            VerdictView::Met
        } else {
            VerdictView::Failed("the fixture proof never reached the console"@)
        },
        ProofStep::Absent(_, needle, message) => if holds(text, needle@) {
            VerdictView::Broken(message@)
        } else {
            VerdictView::Met
        },
        ProofStep::Present(_, needle, message) => if holds(text, needle@) {
            VerdictView::Met
        } else {
            VerdictView::Broken(message@)
        },
        _ => VerdictView::Met,
    }
}

/// Checks the text of a Process at a step that looks at it. A driver asks again
/// while a step that waits has failed, until its time is over.
pub fn check_text(step: &ProofStep, text: &str) -> (r: Verdict)
    ensures
        r@ == text_verdict(*step, text@),
{
    match step {
        ProofStep::WaitTick(_, count) => {
            proof {
                reveal_strlit("tick-");
            }
            if count_of(max_tick(text, TICK_PREFIX)) >= *count {
                Verdict::Met
            } else {
                let shown = decimal_u64(*count as u64);
                Verdict::Failed(concat2("the console never reached tick-", shown.as_str()))
            }
        },
        ProofStep::WaitText(_, needle) => if contains(text, needle) {
            Verdict::Met
        } else {
            Verdict::failed("the fixture proof never reached the console")
        },
        ProofStep::WaitInterrupt(_) => if second_input_line_has_zero_three(text) {
            Verdict::Met
        } else {
            Verdict::failed("the fixture proof never reached the console")
        },
        ProofStep::Absent(_, needle, message) => if contains(text, needle) {
            Verdict::broken(message)
        } else {
            Verdict::Met
        },
        ProofStep::Present(_, needle, message) => if contains(text, needle) {
            Verdict::Met
        } else {
            Verdict::broken(message)
        },
        _ => Verdict::Met,
    }
}

/// What is wrong with the selection that a move left.
pub open spec fn selection_verdict(selected: usize, expected: usize) -> VerdictView {
    if selected == expected {
        VerdictView::Met
    } else {
        VerdictView::Broken("the selection must move and clamp exactly like the app"@)
    }
}

/// Checks on which Process a move left the selection.
pub fn check_selection(selected: usize, expected: usize) -> (r: Verdict)
    ensures
        r@ == selection_verdict(selected, expected),
{
    if selected == expected {
        Verdict::Met
    } else {
        Verdict::broken("the selection must move and clamp exactly like the app")
    }
}

/// Checks whether a live terminal took its new size.
pub fn check_resize(taken: bool) -> (r: Verdict)
    ensures
        r@ == (if taken {
            VerdictView::Met
        } else {
            VerdictView::Broken("a live terminal takes its size"@)
        }),
{
    if taken {
        Verdict::Met
    } else {
        Verdict::broken("a live terminal takes its size")
    }
}

/// The moves of the ingestion proof, with the Process on which each one ends.
pub open spec fn ingest_script(roles: FixtureProcesses) -> Seq<(SelectionMove, usize)> {
    seq![
        (SelectionMove::Down, roles.mute),
        (SelectionMove::Down, roles.piped),
        (SelectionMove::Down, roles.oneoff),
        (SelectionMove::Up, roles.piped),
        (SelectionMove::Up, roles.mute),
    ]
}

/// Moving the selection around must not stop output ingestion for any
/// Process: the moves of the ingestion proof, with the Process on which each
/// one ends.
pub fn prove_ingest(roles: FixtureProcesses) -> (r: Vec<(SelectionMove, usize)>)
    ensures
        r@ == ingest_script(roles),
{
    let moves = vec![
        (SelectionMove::Down, roles.mute),
        (SelectionMove::Down, roles.piped),
        (SelectionMove::Down, roles.oneoff),
        (SelectionMove::Up, roles.piped),
        (SelectionMove::Up, roles.mute),
    ];
    proof {
        assert(moves@ =~= ingest_script(roles));
    }
    moves
}

/// The tick counters of the three Processes that write.
#[derive(Clone, Copy, Debug, PartialEq, Eq, Structural)]
pub struct Ticks {
    pub focused: u32,
    pub mute: u32,
    pub piped: u32,
}

/// The counters that two consoles and the pipe module show. Consoles show the
/// ticks of one Run; the module keeps earlier Runs too, so its last tick counts.
pub open spec fn ticks_in(focused: Seq<char>, mute: Seq<char>, piped: Seq<char>) -> Ticks {
    Ticks {
        focused: counted(max_tick_in(focused, TICK_PREFIX@)),
        mute: counted(max_tick_in(mute, TICK_PREFIX@)),
        piped: counted(last_tick_in(piped, PIPE_TICK_PREFIX@)),
    }
}

/// The counters that two consoles and the pipe module show.
pub fn read_ticks(focused: &str, mute: &str, piped: &str) -> (r: Ticks)
    ensures
        r == ticks_in(focused@, mute@, piped@),
{
    proof {
        reveal_strlit("tick-");
        reveal_strlit("pipe-tick-");
    }
    Ticks {
        focused: count_of(max_tick(focused, TICK_PREFIX)),
        mute: count_of(max_tick(mute, TICK_PREFIX)),
        piped: count_of(last_tick(piped, PIPE_TICK_PREFIX)),
    }
}

/// Which counter has not begun yet.
pub open spec fn begun_verdict(ticks: Ticks) -> VerdictView {
    if ticks.focused < 2 || ticks.mute < 2 {
        VerdictView::Failed("the console never reached tick-2"@)
    } else if ticks.piped < 2 {
        VerdictView::Failed("the pipe module never reached pipe-tick-2"@)
    } else {
        VerdictView::Met
    }
}

/// Checks that every counter runs before the selection moves. A driver asks
/// again while it has failed, until its time is over.
pub fn check_begun(ticks: Ticks) -> (r: Verdict)
    ensures
        r@ == begun_verdict(ticks),
{
    if ticks.focused < 2 || ticks.mute < 2 {
        Verdict::failed("the console never reached tick-2")
    } else if ticks.piped < 2 {
        Verdict::failed("the pipe module never reached pipe-tick-2")
    } else {
        Verdict::Met
    }
}

/// Which counter stopped while the selection moved.
pub open spec fn ingest_verdict(before: Ticks, after: Ticks) -> VerdictView {
    if after.focused <= before.focused {
        VerdictView::Broken("selection moves stopped ingestion into the focused terminal"@)
    } else if after.mute <= before.mute {
        VerdictView::Broken("selection moves stopped ingestion into the muted terminal"@)
    } else if after.piped <= before.piped {
        VerdictView::Broken("selection moves stopped ingestion into the pipe module"@)
    } else {
        VerdictView::Met
    }
}

/// Checks that every counter went on while the selection moved.
pub fn check_ingest(before: Ticks, after: Ticks) -> (r: Verdict)
    ensures
        r@ == ingest_verdict(before, after),
{
    if after.focused <= before.focused {
        Verdict::broken("selection moves stopped ingestion into the focused terminal")
    } else if after.mute <= before.mute {
        Verdict::broken("selection moves stopped ingestion into the muted terminal")
    } else if after.piped <= before.piped {
        Verdict::broken("selection moves stopped ingestion into the pipe module")
    } else {
        Verdict::Met
    }
}

/// What is wrong with the first Process, from `from` on, that a shutdown left
/// with a failure.
pub open spec fn cleanup_fault(processes: Seq<ProcessSnapshot>, from: int) -> Option<Seq<char>>
    decreases processes.len() - from,
{
    if from < 0 || from >= processes.len() {
        None
    } else {
        match processes[from].failure {
            Some(failure) => Some(
                "Process "@ + processes[from].name@ + " reported a cleanup failure: "@
                    + failure.detail@,
            ),
            None => cleanup_fault(processes, from + 1),
        }
    }
}

/// Why a stopped fixture does not count as stopped cleanly. After a failed
/// proof nothing more is reported.
pub open spec fn shutdown_reading(snapshot: ProjectSnapshot, proof_ok: bool) -> Option<Seq<char>> {
    if !proof_ok {
        None
    } else if snapshot.shutdown matches Some(result) && result.failures@.len() > 0 {
        Some("Project shutdown failures"@)
    } else {
        cleanup_fault(snapshot.processes@, 0)
    }
}

/// Why a stopped fixture does not count as stopped cleanly.
pub fn check_cleanup(snapshot: &ProjectSnapshot, proof_ok: bool) -> (r: Option<String>)
    ensures
        (match r {
            Some(message) => Some(message@),
            None => None,
        }) == shutdown_reading(*snapshot, proof_ok),
{
    if !proof_ok {
        return None;
    }
    if let Some(result) = &snapshot.shutdown {
        if result.failures.len() > 0 {
            return Some("Project shutdown failures".to_owned());
        }
    }
    let mut index: usize = 0;
    while index < snapshot.processes.len()
        invariant
            index <= snapshot.processes.len(),
            shutdown_reading(*snapshot, proof_ok) == cleanup_fault(snapshot.processes@, 0),
            cleanup_fault(snapshot.processes@, 0) == cleanup_fault(
                snapshot.processes@,
                index as int,
            ),
        decreases snapshot.processes.len() - index,
    {
        let process = &snapshot.processes[index];
        if let Some(failure) = &process.failure {
            return Some(
                concat4(
                    "Process ",
                    process.name.as_str(),
                    " reported a cleanup failure: ",
                    failure.detail.as_str(),
                ),
            );
        }
        index = index + 1;
    }
    None
}

} // verus!
