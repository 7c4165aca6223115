//! Interactive Project state.
//!
//! This module owns the state that changes together when the user interacts
//! with the selected Process: focus, warnings, Process selection, and every
//! per-Process Logs view. The event loop supplies immutable Supervisor and
//! output facts and performs the returned Supervisor commands.

use vstd::prelude::*;

use crate::console::{
    ConsoleInteraction, ConsolePaneKind, ConsoleStep, ConsoleViewMode, ConsoleViewState,
    ConsoleWarning, MouseRoute, TerminalAction,
};
use crate::input::{Event, KeyCode, KeyEvent, KeyEventKind, MouseButton, MouseEvent, MouseEventKind};
use crate::input::Rect;
use crate::lifecycle::LifecycleCommand;
use crate::log_view::{OutputRepresentation, SearchDialogView};
use crate::model::{ProcessKind, TerminalMode};
use crate::output::{PipeLine, RetainedOutput};
use crate::process_logs::{LogsInput, ProcessLogs};
use crate::snapshot::{Lifecycle, ProcessSnapshot, ProjectSnapshot};
use crate::view_model::{process_row_at, profile_changes_pending, ProcessListRow};

#[allow(unused_imports)]
use crate::console::{moved_selections, ConsoleState};
#[allow(unused_imports)]
use crate::process_logs::{highlighted, LogsEffect, LogsState};
#[allow(unused_imports)]
use crate::scrollbar::{less, smaller};
#[allow(unused_imports)]
use crate::view_model::{changes_pending, line_views, process_under, ListLine};

verus! {

/// One command for the Supervisor.
#[derive(Clone, Debug, PartialEq, Eq)]
pub enum Command {
    StartAutostart,
    Start(String),
    StartAnyway(String),
    Stop(String),
    StopAll,
    Restart(String),
    Rerun(String),
    SelectNextProcessProfile,
    RestartProfiledAutostart,
    /// Stop every Process within so many nanoseconds.
    Shutdown(u64),
}

/// One command for the Supervisor, as mathematical values.
pub enum CommandRequest {
    StartAutostart,
    Start(Seq<char>),
    StartAnyway(Seq<char>),
    Stop(Seq<char>),
    StopAll,
    Restart(Seq<char>),
    Rerun(Seq<char>),
    SelectNextProcessProfile,
    RestartProfiledAutostart,
    Shutdown(u64),
}

impl View for Command {
    type V = CommandRequest;

    open spec fn view(&self) -> CommandRequest {
        match *self {
            Command::StartAutostart => CommandRequest::StartAutostart,
            Command::Start(name) => CommandRequest::Start(name@),
            Command::StartAnyway(name) => CommandRequest::StartAnyway(name@),
            Command::Stop(name) => CommandRequest::Stop(name@),
            Command::StopAll => CommandRequest::StopAll,
            Command::Restart(name) => CommandRequest::Restart(name@),
            Command::Rerun(name) => CommandRequest::Rerun(name@),
            Command::SelectNextProcessProfile => CommandRequest::SelectNextProcessProfile,
            Command::RestartProfiledAutostart => CommandRequest::RestartProfiledAutostart,
            Command::Shutdown(wait) => CommandRequest::Shutdown(wait),
        }
    }
}

/// Commands as mathematical values.
pub open spec fn requests(commands: Seq<Command>) -> Seq<CommandRequest> {
    commands.map_values(|command: Command| command@)
}

/// The selected Process's visible output owner.
#[derive(Clone, Copy, Debug, PartialEq, Eq, Structural)]
pub enum SelectedPane {
    /// A terminal, whether its session is still there, and whether the child
    /// asked for mouse events.
    Terminal { live: bool, mouse_tracking: bool },
    /// Retained output.
    Logs,
}

/// What a live terminal reported since the last frame.
#[derive(Clone, Copy, Debug, PartialEq, Eq, Structural)]
pub enum TerminalNotice {
    Failed,
    InputBackpressure,
    OutputTruncated,
    Exited,
    StateChanged,
}

/// One result from routing a terminal input event through application state.
#[derive(Clone, Copy, Debug, PartialEq, Eq, Structural)]
pub enum InputResult {
    Ignored,
    Changed,
    Quit,
}

/// What is left to do for an input event.
#[derive(Clone, Debug, PartialEq, Eq)]
pub enum InputStep {
    /// Nothing, apart from the action of the terminal, if any.
    Done(InputResult, Option<TerminalAction>),
    /// The key goes to the child; `record_key` takes the outcome.
    DeliverKey(KeyEvent),
    /// The pasted text goes to the child; `record_paste` takes the outcome.
    DeliverPaste,
    /// The focus change goes to the child; `record_focus` takes the outcome.
    DeliverFocus(bool),
    /// The event goes to the terminal once per repeat:
    /// `route_terminal_mouse`, then `record_mouse`.
    DeliverMouse,
    /// The text goes to the clipboard; `copy_logs` writes it.
    CopyLogs(String),
}

/// What is left to do for an input event, as mathematical values.
pub enum StepView {
    Done(InputResult, Option<TerminalAction>),
    DeliverKey(KeyEvent),
    DeliverPaste,
    DeliverFocus(bool),
    DeliverMouse,
    CopyLogs(Seq<char>),
}

impl View for InputStep {
    type V = StepView;

    open spec fn view(&self) -> StepView {
        match *self {
            InputStep::Done(result, action) => StepView::Done(result, action),
            InputStep::DeliverKey(key) => StepView::DeliverKey(key),
            InputStep::DeliverPaste => StepView::DeliverPaste,
            InputStep::DeliverFocus(gained) => StepView::DeliverFocus(gained),
            InputStep::DeliverMouse => StepView::DeliverMouse,
            InputStep::CopyLogs(text) => StepView::CopyLogs(text@),
        }
    }
}

/// Where the panes lie on the screen.
#[derive(Clone, Copy, Debug, PartialEq, Eq, Structural)]
pub struct ProjectLayout {
    pub list: Rect,
    /// The console pane with its border.
    pub console: Rect,
    /// The console pane without its border.
    pub console_inner: Rect,
    /// The first line of the Process list that is shown.
    pub list_offset: usize,
}

/// Immutable values needed to render one frame.
#[derive(Clone, Debug, PartialEq, Eq)]
pub struct InteractionFrame {
    pub lines: Option<Vec<PipeLine>>,
    pub logs_status: Option<String>,
    pub search_dialog: Option<SearchDialogView>,
    pub logs_editing: bool,
    pub representation: OutputRepresentation,
    pub view: ConsoleViewState,
}

/// Effects produced when queued list commands are applied to a snapshot.
#[derive(Clone, Debug, PartialEq, Eq)]
pub struct ProjectUpdate {
    pub changed: bool,
    pub commands: Vec<Command>,
}

/// The Supervisor command of a lifecycle request for a Process. A OneShot is
/// run again rather than restarted.
pub open spec fn request_for(command: LifecycleCommand, process: ProcessSnapshot) -> CommandRequest {
    match command {
        LifecycleCommand::Start => CommandRequest::Start(process.name@),
        LifecycleCommand::Stop => CommandRequest::Stop(process.name@),
        LifecycleCommand::Restart => if process.kind == ProcessKind::OneShot {
            CommandRequest::Rerun(process.name@)
        } else {
            CommandRequest::Restart(process.name@)
        },
    }
}

/// Whether a key quits in the given view.
pub open spec fn quits(key: KeyEvent, view: ConsoleViewState) -> bool {
    key.code == KeyCode::Char('q') && (key.modifiers.control || (view.mode
        == ConsoleViewMode::ProcessList && !key.modifiers.shift && !key.modifiers.control
        && !key.modifiers.alt && !key.modifiers.other))
}

/// Whether a key quits the Project. While a search is typed only the control
/// binding does.
pub open spec fn quits_project(key: KeyEvent, view: ConsoleViewState, editing: bool) -> bool {
    key.kind == KeyEventKind::Press && quits(key, view) && (!editing || key.modifiers.control)
}

/// The Project command of a Process-list key.
pub open spec fn project_command(
    key: KeyEvent,
    mode: ConsoleViewMode,
    profile_pending: bool,
    process: ProcessSnapshot,
) -> Option<CommandRequest> {
    if key.kind != KeyEventKind::Press || mode != ConsoleViewMode::ProcessList
        || key.modifiers.control || key.modifiers.alt {
        None
    } else {
        match key.code {
            KeyCode::Char('p') => Some(CommandRequest::SelectNextProcessProfile),
            KeyCode::Char('R') => if profile_pending {
                Some(CommandRequest::RestartProfiledAutostart)
            } else {
                None
            },
            KeyCode::Char('S') => if process.lifecycle == Lifecycle::Waiting {
                Some(CommandRequest::StartAnyway(process.name@))
            } else {
                None
            },
            _ => None,
        }
    }
}

/// A press of any mouse button.
pub open spec fn presses(kind: MouseEventKind) -> bool {
    kind is Down
}

/// A drag or a release of any mouse button.
pub open spec fn continues_gesture(kind: MouseEventKind) -> bool {
    kind is Drag || kind is Up
}

/// The Project interaction as mathematical values.
pub struct InteractionState {
    pub console: ConsoleState,
    pub selected: int,
    pub logs: Seq<LogsState>,
    pub commands: Seq<CommandRequest>,
    pub profile_pending: bool,
    pub start_anyway: bool,
    pub truncation: Option<(usize, bool)>,
}

/// Logs states for so many Processes: the first ones are kept.
pub open spec fn resized_logs(logs: Seq<LogsState>, count: int) -> Seq<LogsState> {
    Seq::new(
        count as nat,
        |i: int|
            if i < logs.len() {
                logs[i]
            } else {
                LogsState::fresh()
            },
    )
}

impl InteractionState {
    /// The state at startup.
    pub open spec fn fresh() -> Self {
        InteractionState {
            console: ConsoleState::fresh(),
            selected: 0,
            logs: Seq::empty(),
            commands: Seq::empty(),
            profile_pending: false,
            start_anyway: false,
            truncation: None,
        }
    }

    /// The invariant of the state.
    pub open spec fn wf(self) -> bool {
        &&& 0 <= self.selected < self.logs.len()
        &&& self.logs_wf()
    }

    /// The invariant of every Logs view.
    pub open spec fn logs_wf(self) -> bool {
        forall|i: int| 0 <= i < self.logs.len() ==> (#[trigger] self.logs[i]).wf()
    }

    /// The Logs of the selected Process.
    pub open spec fn log(self) -> LogsState {
        self.logs[self.selected]
    }

    /// The state with another Logs view for the selected Process.
    pub open spec fn with_log(self, log: LogsState) -> Self {
        InteractionState { logs: self.logs.update(self.selected, log), ..self }
    }

    /// The state with another console.
    pub open spec fn with_console(self, console: ConsoleState) -> Self {
        InteractionState { console, ..self }
    }

    /// The state with a warning, or without one.
    pub open spec fn warned(self, warning: Option<ConsoleWarning>) -> Self {
        self.with_console(self.console.warned(warning))
    }

    /// The state after queued moves and commands met a snapshot.
    pub open spec fn updated(self, snapshot: ProjectSnapshot) -> (
        Self,
        bool,
        Seq<CommandRequest>,
    ) {
        let count = snapshot.processes@.len() as int;
        let moves = self.console.moves;
        let selected = moved_selections(smaller(self.selected, count - 1), moves, count);
        let process = snapshot.processes@[selected];
        (
            InteractionState {
                console: ConsoleState {
                    moves: Seq::empty(),
                    commands: Seq::empty(),
                    view: if moves.len() > 0 {
                        self.console.view.without_pane_warning()
                    } else {
                        self.console.view
                    },
                    ..self.console
                },
                selected,
                logs: resized_logs(self.logs, count),
                commands: Seq::empty(),
                profile_pending: changes_pending(snapshot.processes@),
                start_anyway: process.lifecycle == Lifecycle::Waiting,
                ..self
            },
            moves.len() > 0,
            self.commands + self.console.commands.map_values(
                |command: LifecycleCommand| request_for(command, process),
            ),
        )
    }

    /// The warning that the last of some notices leaves.
    pub open spec fn noticed(self, notices: Seq<TerminalNotice>) -> (Self, bool)
        decreases notices.len(),
    {
        if notices.len() == 0 {
            (self, false)
        } else {
            let (state, changed) = self.noticed(notices.drop_last());
            match notices.last() {
                TerminalNotice::Failed => (
                    state.warned(Some(ConsoleWarning::InputRejected)),
                    changed,
                ),
                TerminalNotice::InputBackpressure => (
                    state.warned(Some(ConsoleWarning::InputBackpressure)),
                    true,
                ),
                TerminalNotice::OutputTruncated => (
                    state.warned(Some(ConsoleWarning::OutputTruncated)),
                    true,
                ),
                TerminalNotice::Exited => (state, true),
                TerminalNotice::StateChanged => (state, true),
            }
        }
    }

    /// The state once a terminal pane and what it reported were taken in.
    pub open spec fn on_terminal(self, notices: Seq<TerminalNotice>) -> (Self, bool) {
        let (state, changed) = InteractionState { truncation: None, ..self }.noticed(notices);
        (state.with_console(state.console.showing(ConsolePaneKind::Terminal)), changed)
    }

    /// Whether truncated output of the selected Process was already warned of.
    pub open spec fn knows_truncation(self) -> bool {
        self.truncation == Some((self.selected as usize, true))
    }

    /// The state once a Logs pane was taken in.
    pub open spec fn on_logs(self, truncated: bool) -> Self {
        let state = if truncated && !self.knows_truncation() {
            self.warned(Some(ConsoleWarning::OutputTruncated))
        } else {
            self
        };
        InteractionState {
            truncation: Some((self.selected as usize, truncated)),
            ..state.with_console(state.console.showing(ConsolePaneKind::Pipe))
        }
    }

    /// What the console shows in the next frame.
    pub open spec fn view_of(self, pane: SelectedPane) -> ConsoleViewState {
        let view = ConsoleViewState {
            profile_changes_pending: self.profile_pending,
            start_anyway_available: self.start_anyway,
            ..self.console.view
        };
        match pane {
            SelectedPane::Terminal { .. } => view,
            SelectedPane::Logs => ConsoleViewState {
                following: self.log().scroll.follows(),
                search_editing: self.log().search.editor is Some,
                search_active: self.log().search.has_query(),
                logs_selection: (match self.log().scroll.selection {
                    Some(selection) => selection.anchor != selection.cursor,
                    None => false,
                }),
                logs_scrollbar: self.log().scroll.scrollbar,
                ..view
            },
        }
    }

    /// A key that the Logs view did not take.
    pub open spec fn keyed_pane(
        self,
        key: KeyEvent,
        pane: SelectedPane,
        input_focused: bool,
        rows: u16,
    ) -> (Self, StepView) {
        match pane {
            SelectedPane::Terminal { live, .. } => if !live {
                (self, StepView::Done(InputResult::Ignored, None))
            } else {
                let (console, log, step) = self.console.routed(
                    ConsolePaneKind::Terminal,
                    input_focused,
                    key,
                    self.log(),
                    rows,
                );
                (self.with_console(console).with_log(log), console_step(step))
            },
            SelectedPane::Logs => {
                let (console, log, step) = self.console.routed(
                    ConsolePaneKind::Pipe,
                    input_focused,
                    key,
                    self.log(),
                    rows,
                );
                (self.with_console(console).with_log(log), console_step(step))
            },
        }
    }

    /// One key that neither quits nor commands the Project.
    pub open spec fn keyed(
        self,
        key: KeyEvent,
        pane: SelectedPane,
        input_focused: bool,
        output: RetainedOutput,
        pane_rows: u16,
    ) -> (Self, StepView) {
        let rows = if pane_rows == 0 {
            1u16
        } else {
            pane_rows
        };
        let (log, effect) = self.log().keyed(
            key,
            self.console.view.mode == ConsoleViewMode::ProcessList,
            pane is Terminal,
            output,
            rows as int,
        );
        let state = self.with_log(log);
        match effect {
            LogsEffect::Changed => (
                state.warned(None),
                StepView::Done(InputResult::Changed, None),
            ),
            LogsEffect::Copy(text) => (state.warned(None), StepView::CopyLogs(text)),
            LogsEffect::Ignored => state.keyed_pane(key, pane, input_focused, rows),
        }
    }

    /// One paste.
    pub open spec fn pasted(
        self,
        text: Seq<char>,
        pane: SelectedPane,
        input_focused: bool,
        output: RetainedOutput,
    ) -> (Self, StepView) {
        let done = StepView::Done(InputResult::Changed, None);
        if self.log().search.editor is Some {
            let (log, changed) = self.log().pasting(text, output);
            (
                self.warned(None).with_log(log),
                if changed {
                    done
                } else {
                    StepView::Done(InputResult::Ignored, None)
                },
            )
        } else {
            match pane {
                SelectedPane::Terminal { live, .. } => if self.console.view.mode
                    == ConsoleViewMode::Console && self.console.view.pane
                    == ConsolePaneKind::Terminal && input_focused {
                    (
                        self,
                        if live {
                            StepView::DeliverPaste
                        } else {
                            done
                        },
                    )
                } else if !input_focused {
                    (self.warned(Some(ConsoleWarning::InputDisabled)), done)
                } else {
                    (self.warned(Some(ConsoleWarning::PasteRejected)), done)
                },
                SelectedPane::Logs => (self.warned(Some(ConsoleWarning::PasteRejected)), done),
            }
        }
    }

    /// One focus change of the host terminal.
    pub open spec fn focused(self, gained: bool, pane: SelectedPane, input_focused: bool) -> (
        Self,
        StepView,
    ) {
        match pane {
            SelectedPane::Logs => (self, StepView::Done(InputResult::Ignored, None)),
            SelectedPane::Terminal { live, .. } => if !input_focused {
                (
                    self.warned(Some(ConsoleWarning::InputDisabled)),
                    StepView::Done(InputResult::Changed, None),
                )
            } else if live {
                (self, StepView::DeliverFocus(gained))
            } else {
                (
                    self.warned(Some(ConsoleWarning::InputRejected)),
                    StepView::Done(InputResult::Changed, None),
                )
            },
        }
    }

    /// One mouse event over the Process list.
    pub open spec fn listed(
        self,
        mouse: MouseEvent,
        pane: SelectedPane,
        repeats: int,
        lines: Seq<ListLine>,
        layout: ProjectLayout,
    ) -> (Self, StepView) {
        let live = pane matches SelectedPane::Terminal { live: true, .. };
        let moves_focus = presses(mouse.kind) && (live || pane is Logs);
        let action = if moves_focus {
            self.console.leaving_copy(live)
        } else {
            None
        };
        let state = if moves_focus {
            self.with_console(self.console.on_list())
        } else {
            self
        };
        let row = process_under(layout.list, mouse.row, lines, layout.list_offset as int);
        let next = match mouse.kind {
            MouseEventKind::Down(MouseButton::Left) => match row {
                Some(index) => if index < self.logs.len() {
                    InteractionState {
                        selected: index,
                        console: ConsoleState {
                            view: state.console.view.without_pane_warning(),
                            ..state.console
                        },
                        ..state
                    }
                } else {
                    state
                },
                None => state,
            },
            MouseEventKind::ScrollUp => InteractionState {
                selected: less(self.selected, repeats),
                ..state
            },
            MouseEventKind::ScrollDown => InteractionState {
                selected: smaller(self.selected + repeats, self.logs.len() - 1),
                ..state
            },
            _ => state,
        };
        (
            next,
            StepView::Done(
                if next.selected != self.selected || presses(mouse.kind) {
                    InputResult::Changed
                } else {
                    InputResult::Ignored
                },
                action,
            ),
        )
    }

    /// One mouse event over Logs.
    pub open spec fn logs_pointed(
        self,
        mouse: MouseEvent,
        area: Rect,
        repeats: int,
        output: RetainedOutput,
    ) -> (Self, bool) {
        let (log, changed) = self.log().pointed(mouse, area, repeats, output);
        let state = self.with_log(log);
        (
            if changed {
                state.warned(None)
            } else {
                state
            },
            changed,
        )
    }

    /// One mouse event over the console pane.
    pub open spec fn console_pointed(
        self,
        mouse: MouseEvent,
        pane: SelectedPane,
        repeats: int,
        output: RetainedOutput,
        layout: ProjectLayout,
    ) -> (Self, StepView) {
        let starts = presses(mouse.kind) && self.console.view.mode == ConsoleViewMode::ProcessList;
        let state = if starts {
            self.with_console(self.console.on_console())
        } else {
            self
        };
        match pane {
            SelectedPane::Terminal { live, .. } => if live {
                (state, StepView::DeliverMouse)
            } else {
                (self, StepView::Done(InputResult::Ignored, None))
            },
            SelectedPane::Logs => {
                let (next, changed) = state.logs_pointed(
                    mouse,
                    layout.console_inner,
                    repeats,
                    output,
                );
                (
                    next,
                    StepView::Done(
                        if changed || presses(mouse.kind) {
                            InputResult::Changed
                        } else {
                            InputResult::Ignored
                        },
                        None,
                    ),
                )
            },
        }
    }

    /// One mouse event. A gesture that is under way keeps its pane; any other
    /// event belongs to the pane under the pointer.
    pub open spec fn pointed(
        self,
        mouse: MouseEvent,
        pane: SelectedPane,
        repeats: int,
        output: RetainedOutput,
        lines: Seq<ListLine>,
        layout: ProjectLayout,
    ) -> (Self, StepView) {
        if pane is Logs && self.log().scroll.gesture is Some && continues_gesture(mouse.kind) {
            let (state, changed) = self.logs_pointed(
                mouse,
                layout.console_inner,
                repeats,
                output,
            );
            (
                state,
                StepView::Done(
                    if changed {
                        InputResult::Changed
                    } else {
                        InputResult::Ignored
                    },
                    None,
                ),
            )
        } else if pane is Terminal && self.console.mouse_gesture && continues_gesture(mouse.kind) {
            (
                self,
                if pane->live {
                    StepView::DeliverMouse
                } else {
                    StepView::Done(InputResult::Ignored, None)
                },
            )
        } else if layout.list.holds(mouse.column, mouse.row) {
            self.listed(mouse, pane, repeats, lines, layout)
        } else if layout.console.holds(mouse.column, mouse.row) {
            self.console_pointed(mouse, pane, repeats, output, layout)
        } else {
            (self, StepView::Done(InputResult::Ignored, None))
        }
    }

    /// One input event.
    pub open spec fn routed(
        self,
        event: Event,
        repeats: int,
        pane: SelectedPane,
        process: ProcessSnapshot,
        output: RetainedOutput,
        pane_rows: u16,
        lines: Seq<ListLine>,
        layout: ProjectLayout,
    ) -> (Self, StepView) {
        match event {
            Event::Key(key) => if quits_project(
                key,
                self.console.view,
                self.log().search.editor is Some,
            ) {
                (self, StepView::Done(InputResult::Quit, None))
            } else {
                match project_command(
                    key,
                    self.console.view.mode,
                    self.profile_pending,
                    process,
                ) {
                    Some(command) => (
                        InteractionState {
                            commands: self.commands.push(command),
                            ..self.warned(None)
                        },
                        StepView::Done(InputResult::Changed, None),
                    ),
                    None => self.keyed(key, pane, process.input_focused, output, pane_rows),
                }
            },
            Event::Paste(text) => self.pasted(text@, pane, process.input_focused, output),
            Event::FocusGained => self.focused(true, pane, process.input_focused),
            Event::FocusLost => self.focused(false, pane, process.input_focused),
            Event::Mouse(mouse) => self.pointed(mouse, pane, repeats, output, lines, layout),
            Event::Resize(_, _) => (self, StepView::Done(InputResult::Ignored, None)),
        }
    }
}

/// The step of a console step that a key caused.
pub open spec fn console_step(step: ConsoleStep) -> StepView {
    match step {
        ConsoleStep::Ignored => StepView::Done(InputResult::Ignored, None),
        ConsoleStep::Changed(action) => StepView::Done(InputResult::Changed, action),
        ConsoleStep::DeliverKey(key) => StepView::DeliverKey(key),
        ConsoleStep::DeliverMouse(_) => StepView::DeliverMouse,
    }
}

/// Whether a key quits the Project.
pub fn should_quit(key: KeyEvent, view: ConsoleViewState, search_editing: bool) -> (r: bool)
    ensures
        r == quits_project(key, view, search_editing),
{
    key.kind == KeyEventKind::Press && is_quit(key, view) && (!search_editing
        || key.modifiers.control)
}

/// Whether a key quits in the given view.
pub fn is_quit(key: KeyEvent, view: ConsoleViewState) -> (r: bool)
    ensures
        r == quits(key, view),
{
    key.code == KeyCode::Char('q') && (key.modifiers.control || (view.mode
        == ConsoleViewMode::ProcessList && key.modifiers.is_empty()))
}

/// Whether a mouse event moves the focus to the pane under the pointer.
pub fn mouse_changes_focus(kind: MouseEventKind) -> (r: bool)
    ensures
        r == presses(kind),
{
    match kind {
        MouseEventKind::Down(_) => true,
        _ => false,
    }
}

/// Whether a mouse event moves the focus from the Process list to the console.
pub fn mouse_starts_console_focus(kind: MouseEventKind, mode: ConsoleViewMode) -> (r: bool)
    ensures
        r == (presses(kind) && mode == ConsoleViewMode::ProcessList),
{
    mouse_changes_focus(kind) && mode == ConsoleViewMode::ProcessList
}

fn mouse_continues_gesture(kind: MouseEventKind) -> (r: bool)
    ensures
        r == continues_gesture(kind),
{
    match kind {
        MouseEventKind::Drag(_) => true,
        MouseEventKind::Up(_) => true,
        _ => false,
    }
}

/// The Supervisor command of a lifecycle request for a Process.
pub fn lifecycle_command(command: LifecycleCommand, process: &ProcessSnapshot) -> (r: Command)
    ensures
        r@ == request_for(command, *process),
{
    match command {
        LifecycleCommand::Start => Command::Start(process.name.clone()),
        LifecycleCommand::Stop => Command::Stop(process.name.clone()),
        LifecycleCommand::Restart => match process.kind {
            ProcessKind::OneShot => Command::Rerun(process.name.clone()),
            _ => Command::Restart(process.name.clone()),
        },
    }
}

/// The Project command of a Process-list key.
pub fn project_key(
    key: KeyEvent,
    mode: ConsoleViewMode,
    profile_pending: bool,
    process: &ProcessSnapshot,
) -> (r: Option<Command>)
    ensures
        (match r {
            Some(command) => Some(command@),
            None => None,
        }) == project_command(key, mode, profile_pending, *process),
{
    if key.kind != KeyEventKind::Press || mode != ConsoleViewMode::ProcessList
        || key.modifiers.control || key.modifiers.alt {
        return None;
    }
    match key.code {
        KeyCode::Char('p') => Some(Command::SelectNextProcessProfile),
        KeyCode::Char('R') => {
            if profile_pending {
                Some(Command::RestartProfiledAutostart)
            } else {
                None
            }
        },
        KeyCode::Char('S') => {
            if process.lifecycle == Lifecycle::Waiting {
                Some(Command::StartAnyway(process.name.clone()))
            } else {
                None
            }
        },
        _ => None,
    }
}

/// Focus, warnings, Process selection, and every per-Process Logs view.
pub struct ProjectInteraction {
    pub console: ConsoleInteraction,
    pub selected: usize,
    pub logs: Vec<ProcessLogs>,
    pub project_commands: Vec<Command>,
    pub profile_changes_pending: bool,
    pub start_anyway_available: bool,
    pub truncation: Option<(usize, bool)>,
}

/// Logs as mathematical values.
pub open spec fn log_states(logs: Seq<ProcessLogs>) -> Seq<LogsState> {
    logs.map_values(|log: ProcessLogs| log@)
}

impl View for ProjectInteraction {
    type V = InteractionState;

    open spec fn view(&self) -> InteractionState {
        InteractionState {
            console: self.console.state(),
            selected: self.selected as int,
            logs: log_states(self.logs@),
            commands: requests(self.project_commands@),
            profile_pending: self.profile_changes_pending,
            start_anyway: self.start_anyway_available,
            truncation: self.truncation,
        }
    }
}

impl Default for ProjectInteraction {
    fn default() -> (r: Self)
        ensures
            r@ == InteractionState::fresh(),
    {
        let interaction = ProjectInteraction {
            console: ConsoleInteraction::default(),
            selected: 0,
            logs: Vec::new(),
            project_commands: Vec::new(),
            profile_changes_pending: false,
            start_anyway_available: false,
            truncation: None,
        };
        proof {
            assert(interaction@.logs =~= Seq::<LogsState>::empty());
            assert(interaction@.commands =~= Seq::<CommandRequest>::empty());
        }
        interaction
    }
}

impl ProjectInteraction {
    /// The selected Process.
    pub fn selected(&self) -> (r: usize)
        ensures
            r == self@.selected,
    {
        self.selected
    }

    /// Show a warning.
    pub fn warn(&mut self, warning: ConsoleWarning)
        ensures
            final(self)@ == old(self)@.warned(Some(warning)),
    {
        self.console.warn(warning);
    }

    /// Reconcile queued user commands with the latest immutable Project
    /// snapshot. Selection and Process commands are applied in one place.
    pub fn update_project(&mut self, snapshot: &ProjectSnapshot) -> (r: ProjectUpdate)
        requires
            snapshot.processes@.len() > 0,
            old(self)@.logs_wf(),
        ensures
            final(self)@.wf(),
            final(self)@.logs.len() == snapshot.processes@.len(),
            (final(self)@, r.changed, requests(r.commands@)) == old(self)@.updated(*snapshot),
    {
        let ghost before = self@;
        let count: usize = snapshot.processes.len();
        self.profile_changes_pending = profile_changes_pending(snapshot);
        if self.selected > count - 1 {
            self.selected = count - 1;
        }
        resize_logs(&mut self.logs, count);
        let changed = self.console.apply_selection_moves(&mut self.selected, count);
        let process = &snapshot.processes[self.selected];
        self.start_anyway_available = process.lifecycle == Lifecycle::Waiting;
        let mut commands: Vec<Command> = Vec::new();
        std::mem::swap(&mut commands, &mut self.project_commands);
        let lifecycle = self.console.take_lifecycle_commands();
        append_commands(&mut commands, &lifecycle, process);
        proof {
            assert(self@.commands =~= Seq::<CommandRequest>::empty());
            assert forall|i: int| 0 <= i < self@.logs.len() implies (#[trigger] self@.logs[i]).wf()
            by {
                if i < before.logs.len() {
                    assert(before.logs[i].wf());
                }
            }
            assert(smaller(smaller(before.selected, count - 1), count - 1) == smaller(
                before.selected,
                count - 1,
            ));
        }
        ProjectUpdate { changed, commands }
    }

    /// Take in new retained output of the selected Process. Says whether its
    /// Logs view changed.
    pub fn refresh_logs(&mut self, output: &RetainedOutput) -> (r: bool)
        requires
            old(self)@.wf(),
        ensures
            final(self)@.wf(),
            ({
                let (search, changed) = old(self)@.log().search.refreshed(*output);
                &&& r == changed
                &&& final(self)@ == old(self)@.with_log(LogsState { search, ..old(self)@.log() })
            }),
    {
        let ghost before = self@;
        proof {
            assert(before.log().wf());
        }
        let index: usize = self.selected;
        let changed = self.logs[index].refresh(output);
        proof {
            before.log_replaced(self@.log());
            assert(self@.logs =~= before.logs.update(index as int, self@.log()));
        }
        changed
    }

    /// The Run whose terminal the selected pane shows, where its session is
    /// still there. `None` where the pane shows Logs in any case.
    pub fn terminal_run(&self, process: &ProcessSnapshot) -> (r: Option<u64>)
        requires
            self@.wf(),
        ensures
            r == (if process.terminal_mode == TerminalMode::Pipe || self@.log().search.shown(
                process.terminal_mode == TerminalMode::Pty,
            ) == OutputRepresentation::Logs {
                None
            } else {
                process.current_run
            }),
    {
        let representation = self.logs[self.selected].representation(
            process.terminal_mode == TerminalMode::Pty,
        );
        if representation == OutputRepresentation::Logs || process.terminal_mode
            == TerminalMode::Pipe {
            None
        } else {
            process.current_run
        }
    }

    /// Take in what a selected terminal reported since the last call. Says
    /// whether something has to be drawn again.
    pub fn update_terminal_pane(&mut self, notices: &Vec<TerminalNotice>) -> (r: bool)
        ensures
            (final(self)@, r) == old(self)@.on_terminal(notices@),
    {
        let ghost before = self@;
        self.truncation = None;
        let ghost start = self@;
        let mut changed = false;
        let mut index: usize = 0;
        while index < notices.len()
            invariant
                index <= notices.len(),
                (self@, changed) == start.noticed(notices@.take(index as int)),
            decreases notices.len() - index,
        {
            proof {
                assert(notices@.take(index + 1).drop_last() =~= notices@.take(index as int));
                assert(notices@.take(index + 1).last() == notices@[index as int]);
            }
            match notices[index] {
                TerminalNotice::Failed => {
                    self.console.warn(ConsoleWarning::InputRejected);
                },
                TerminalNotice::InputBackpressure => {
                    self.console.warn(ConsoleWarning::InputBackpressure);
                    changed = true;
                },
                TerminalNotice::OutputTruncated => {
                    self.console.warn(ConsoleWarning::OutputTruncated);
                    changed = true;
                },
                TerminalNotice::Exited => {
                    changed = true;
                },
                TerminalNotice::StateChanged => {
                    changed = true;
                },
            }
            index = index + 1;
        }
        proof {
            assert(notices@.take(index as int) =~= notices@);
        }
        self.console.set_pane(ConsolePaneKind::Terminal);
        changed
    }

    /// Take in a selected Logs pane. Truncated output is warned of once per
    /// transition.
    pub fn update_logs_pane(&mut self, truncated: bool)
        ensures
            final(self)@ == old(self)@.on_logs(truncated),
    {
        let known = match self.truncation {
            Some((index, was)) => index == self.selected && was,
            None => false,
        };
        if truncated && !known {
            self.console.warn(ConsoleWarning::OutputTruncated);
        }
        self.truncation = Some((self.selected, truncated));
        self.console.set_pane(ConsolePaneKind::Pipe);
    }

    /// The values that one frame shows.
    pub fn frame(
        &mut self,
        pane: SelectedPane,
        retained: &RetainedOutput,
        pane_rows: usize,
    ) -> (r: InteractionFrame)
        requires
            old(self)@.wf(),
            retained.wf(),
        ensures
            final(self)@.wf(),
            pane is Terminal ==> final(self)@ == old(self)@,
            pane is Logs ==> final(self)@ == old(self)@.with_log(
                old(self)@.log().framed(*retained, pane_rows as int),
            ),
            r.view == final(self)@.view_of(pane),
            r.representation == (if pane is Logs {
                OutputRepresentation::Logs
            } else {
                OutputRepresentation::Terminal
            }),
            r.lines is Some <==> pane is Logs,
            pane is Logs ==> r.lines->0@ == highlighted(
                final(self)@.log().scroll.visible,
                final(self)@.log().search.current_match(),
            ),
            (match r.logs_status {
                Some(text) => Some(text@),
                None => None,
            }) == (if pane is Logs {
                final(self)@.log().search.status_text()
            } else {
                None
            }),
            r.logs_editing == (pane is Logs && final(self)@.log().search.editor is Some),
            r.search_dialog is Some <==> r.logs_editing,
            r.logs_editing ==> r.search_dialog->0.query@ == final(self)@.log().search.editor->0
                && r.search_dialog->0.result@ == final(self)@.log().search.result_text(),
    {
        let mut view = self.console.view();
        view.profile_changes_pending = self.profile_changes_pending;
        view.start_anyway_available = self.start_anyway_available;
        match pane {
            SelectedPane::Terminal { .. } => InteractionFrame {
                lines: None,
                logs_status: None,
                search_dialog: None,
                logs_editing: false,
                representation: OutputRepresentation::Terminal,
                view,
            },
            SelectedPane::Logs => {
                let ghost before = self@;
                proof {
                    assert(before.log().wf());
                }
                let index: usize = self.selected;
                let frame = self.logs[index].frame(retained, pane_rows);
                proof {
                    before.log_replaced(self@.log());
                    assert(self@.logs =~= before.logs.update(index as int, self@.log()));
                }
                view.following = frame.following;
                view.search_editing = frame.editing;
                view.search_active = frame.search_active;
                view.logs_selection = frame.has_selection;
                view.logs_scrollbar = frame.scrollbar;
                InteractionFrame {
                    lines: Some(frame.lines),
                    logs_status: frame.status,
                    search_dialog: frame.dialog,
                    logs_editing: frame.editing,
                    representation: OutputRepresentation::Logs,
                    view,
                }
            },
        }
    }
}

impl ProjectInteraction {
    /// Route one input event. `rows` are the lines of the Process list.
    pub fn route_input(
        &mut self,
        event: &Event,
        repeats: usize,
        pane: SelectedPane,
        process: &ProcessSnapshot,
        retained: &RetainedOutput,
        pane_rows: u16,
        rows: &Vec<ProcessListRow>,
        layout: ProjectLayout,
    ) -> (r: InputStep)
        requires
            old(self)@.wf(),
            retained.wf(),
        ensures
            final(self)@.wf(),
            (final(self)@, r@) == old(self)@.routed(
                *event,
                repeats as int,
                pane,
                *process,
                *retained,
                pane_rows,
                line_views(rows@),
                layout,
            ),
    {
        match event {
            Event::Key(key) => {
                if should_quit(
                    *key,
                    self.console.view(),
                    self.logs[self.selected].is_search_editing(),
                ) {
                    return InputStep::Done(InputResult::Quit, None);
                }
                match project_key(
                    *key,
                    self.console.view().mode,
                    self.profile_changes_pending,
                    process,
                ) {
                    Some(command) => {
                        self.queue_command(command);
                        InputStep::Done(InputResult::Changed, None)
                    },
                    None => self.route_key(*key, pane, process.input_focused, retained, pane_rows),
                }
            },
            Event::Paste(text) => self.route_paste(text, pane, process.input_focused, retained),
            Event::FocusGained => self.route_focus(true, pane, process.input_focused),
            Event::FocusLost => self.route_focus(false, pane, process.input_focused),
            Event::Mouse(mouse) => self.route_mouse(*mouse, pane, repeats, retained, rows, layout),
            Event::Resize(_, _) => InputStep::Done(InputResult::Ignored, None),
        }
    }

    fn queue_command(&mut self, command: Command)
        ensures
            final(self)@ == (InteractionState {
                commands: old(self)@.commands.push(command@),
                ..old(self)@.warned(None)
            }),
    {
        let ghost before = self@;
        self.project_commands.push(command);
        self.console.clear_warning();
        proof {
            assert(self@.commands =~= before.commands.push(command@));
        }
    }

    fn route_key(
        &mut self,
        key: KeyEvent,
        pane: SelectedPane,
        input_focused: bool,
        retained: &RetainedOutput,
        pane_rows: u16,
    ) -> (r: InputStep)
        requires
            old(self)@.wf(),
            retained.wf(),
        ensures
            final(self)@.wf(),
            (final(self)@, r@) == old(self)@.keyed(
                key,
                pane,
                input_focused,
                *retained,
                pane_rows,
            ),
    {
        let ghost before = self@;
        proof {
            assert(before.log().wf());
        }
        // Use the pane that is actually rendered. A PTY Process with no active
        // Run falls back to retained Logs, so treating it as Terminal here
        // would route Logs copy keys to the read-only navigation handler.
        let has_terminal = match pane {
            SelectedPane::Terminal { .. } => true,
            SelectedPane::Logs => false,
        };
        let rows: u16 = if pane_rows == 0 {
            1
        } else {
            pane_rows
        };
        let index: usize = self.selected;
        let command_context = self.console.view().mode == ConsoleViewMode::ProcessList;
        let taken = self.logs[index].handle_key(
            key,
            command_context,
            has_terminal,
            retained,
            rows as usize,
        );
        proof {
            assert(self@.logs =~= before.logs.update(index as int, self@.log()));
            before.log_replaced(self@.log());
        }
        match taken {
            LogsInput::Changed => {
                self.console.clear_warning();
                InputStep::Done(InputResult::Changed, None)
            },
            LogsInput::Copy(text) => {
                self.console.clear_warning();
                InputStep::CopyLogs(text)
            },
            LogsInput::Ignored => self.route_pane_key(key, pane, input_focused, rows),
        }
    }

    fn route_pane_key(
        &mut self,
        key: KeyEvent,
        pane: SelectedPane,
        input_focused: bool,
        rows: u16,
    ) -> (r: InputStep)
        requires
            old(self)@.wf(),
        ensures
            final(self)@.wf(),
            (final(self)@, r@) == old(self)@.keyed_pane(key, pane, input_focused, rows),
    {
        let ghost before = self@;
        let kind = match pane {
            SelectedPane::Terminal { live, .. } => {
                if !live {
                    return InputStep::Done(InputResult::Ignored, None);
                }
                ConsolePaneKind::Terminal
            },
            SelectedPane::Logs => ConsolePaneKind::Pipe,
        };
        let index: usize = self.selected;
        let step = self.console.route_pane_key(
            kind,
            input_focused,
            key,
            &mut self.logs[index],
            rows,
        );
        proof {
            assert(before.log().wf());
            crate::console::routing_keeps_the_search(
                before.console,
                kind,
                input_focused,
                key,
                before.log(),
                rows,
            );
            assert(self@.logs =~= before.logs.update(index as int, self@.log()));
            before.log_replaced(self@.log());
        }
        match step {
            ConsoleStep::Ignored => InputStep::Done(InputResult::Ignored, None),
            ConsoleStep::Changed(action) => InputStep::Done(InputResult::Changed, action),
            ConsoleStep::DeliverKey(key) => InputStep::DeliverKey(key),
            ConsoleStep::DeliverMouse(_) => InputStep::DeliverMouse,
        }
    }

    fn route_paste(
        &mut self,
        text: &String,
        pane: SelectedPane,
        input_focused: bool,
        retained: &RetainedOutput,
    ) -> (r: InputStep)
        requires
            old(self)@.wf(),
            retained.wf(),
        ensures
            final(self)@.wf(),
            (final(self)@, r@) == old(self)@.pasted(text@, pane, input_focused, *retained),
    {
        let ghost before = self@;
        proof {
            assert(before.log().wf());
        }
        let index: usize = self.selected;
        if self.logs[index].is_search_editing() {
            self.console.clear_warning();
            let changed = self.logs[index].paste_search(text.as_str(), retained);
            proof {
                assert(self@.logs =~= before.logs.update(index as int, self@.log()));
                before.log_replaced(self@.log());
            }
            return if changed {
                InputStep::Done(InputResult::Changed, None)
            } else {
                InputStep::Done(InputResult::Ignored, None)
            };
        }
        match pane {
            SelectedPane::Terminal { live, .. } => {
                if self.console.accepts_child_input(input_focused) {
                    if live {
                        return InputStep::DeliverPaste;
                    }
                } else if !input_focused {
                    self.console.warn(ConsoleWarning::InputDisabled);
                } else {
                    self.console.warn(ConsoleWarning::PasteRejected);
                }
            },
            SelectedPane::Logs => {
                self.console.warn(ConsoleWarning::PasteRejected);
            },
        }
        InputStep::Done(InputResult::Changed, None)
    }

    fn route_focus(&mut self, gained: bool, pane: SelectedPane, input_focused: bool) -> (r:
        InputStep)
        requires
            old(self)@.wf(),
        ensures
            final(self)@.wf(),
            (final(self)@, r@) == old(self)@.focused(gained, pane, input_focused),
    {
        match pane {
            SelectedPane::Logs => InputStep::Done(InputResult::Ignored, None),
            SelectedPane::Terminal { live, .. } => {
                if !input_focused {
                    self.console.warn(ConsoleWarning::InputDisabled);
                    InputStep::Done(InputResult::Changed, None)
                } else if live {
                    InputStep::DeliverFocus(gained)
                } else {
                    self.console.warn(ConsoleWarning::InputRejected);
                    InputStep::Done(InputResult::Changed, None)
                }
            },
        }
    }

    fn route_mouse(
        &mut self,
        mouse: MouseEvent,
        pane: SelectedPane,
        repeats: usize,
        retained: &RetainedOutput,
        rows: &Vec<ProcessListRow>,
        layout: ProjectLayout,
    ) -> (r: InputStep)
        requires
            old(self)@.wf(),
            retained.wf(),
        ensures
            final(self)@.wf(),
            (final(self)@, r@) == old(self)@.pointed(
                mouse,
                pane,
                repeats as int,
                *retained,
                line_views(rows@),
                layout,
            ),
    {
        let continues = mouse_continues_gesture(mouse.kind);
        match pane {
            SelectedPane::Logs => {
                if self.logs[self.selected].scrollbar_gesture_active() && continues {
                    return done(
                        self.point_logs(mouse, layout.console_inner, repeats, retained),
                    );
                }
            },
            SelectedPane::Terminal { live, .. } => {
                if self.console.mouse_gesture_active() && continues {
                    return if live {
                        InputStep::DeliverMouse
                    } else {
                        InputStep::Done(InputResult::Ignored, None)
                    };
                }
            },
        }
        if layout.list.contains(mouse.column, mouse.row) {
            return self.point_list(mouse, pane, repeats, rows, layout);
        }
        if !layout.console.contains(mouse.column, mouse.row) {
            return InputStep::Done(InputResult::Ignored, None);
        }
        self.point_console(mouse, pane, repeats, retained, layout)
    }

    fn point_logs(
        &mut self,
        mouse: MouseEvent,
        area: Rect,
        repeats: usize,
        retained: &RetainedOutput,
    ) -> (r: bool)
        requires
            old(self)@.wf(),
            retained.wf(),
        ensures
            final(self)@.wf(),
            (final(self)@, r) == old(self)@.logs_pointed(mouse, area, repeats as int, *retained),
    {
        let ghost before = self@;
        let index: usize = self.selected;
        let changed = self.console.handle_read_only_mouse(
            mouse,
            area,
            repeats,
            &mut self.logs[index],
            retained,
        );
        proof {
            assert(before.log().wf());
            assert(self@.logs =~= before.logs.update(index as int, self@.log()));
            before.log_replaced(self@.log());
        }
        changed
    }

    fn point_list(
        &mut self,
        mouse: MouseEvent,
        pane: SelectedPane,
        repeats: usize,
        rows: &Vec<ProcessListRow>,
        layout: ProjectLayout,
    ) -> (r: InputStep)
        requires
            old(self)@.wf(),
        ensures
            final(self)@.wf(),
            (final(self)@, r@) == old(self)@.listed(
                mouse,
                pane,
                repeats as int,
                line_views(rows@),
                layout,
            ),
    {
        let ghost before = self@;
        let pressed = mouse_changes_focus(mouse.kind);
        let action = if pressed {
            match pane {
                SelectedPane::Terminal { live, .. } => {
                    if live {
                        self.console.focus_process_list(true)
                    } else {
                        None
                    }
                },
                SelectedPane::Logs => self.console.focus_process_list(false),
            }
        } else {
            None
        };
        let previous: usize = self.selected;
        let last: usize = self.logs.len() - 1;
        match mouse.kind {
            MouseEventKind::Down(MouseButton::Left) => {
                match process_row_at(layout.list, mouse.row, rows, layout.list_offset) {
                    Some(index) => {
                        if index <= last {
                            self.selected = index;
                            self.console.clear_pane_warning();
                        }
                    },
                    None => {},
                }
            },
            MouseEventKind::ScrollUp => {
                self.selected = previous.saturating_sub(repeats);
            },
            MouseEventKind::ScrollDown => {
                self.selected = if repeats < last - previous {
                    previous + repeats
                } else {
                    last
                };
            },
            _ => {},
        }
        if previous != self.selected || pressed {
            InputStep::Done(InputResult::Changed, action)
        } else {
            InputStep::Done(InputResult::Ignored, action)
        }
    }

    fn point_console(
        &mut self,
        mouse: MouseEvent,
        pane: SelectedPane,
        repeats: usize,
        retained: &RetainedOutput,
        layout: ProjectLayout,
    ) -> (r: InputStep)
        requires
            old(self)@.wf(),
            retained.wf(),
        ensures
            final(self)@.wf(),
            (final(self)@, r@) == old(self)@.console_pointed(
                mouse,
                pane,
                repeats as int,
                *retained,
                layout,
            ),
    {
        let starts = mouse_starts_console_focus(mouse.kind, self.console.view().mode);
        match pane {
            SelectedPane::Terminal { live, .. } => {
                if !live {
                    return InputStep::Done(InputResult::Ignored, None);
                }
                if starts {
                    self.console.focus_console(true);
                }
                InputStep::DeliverMouse
            },
            SelectedPane::Logs => {
                if starts {
                    self.console.focus_console(false);
                }
                let changed = self.point_logs(mouse, layout.console_inner, repeats, retained);
                done(changed || mouse_changes_focus(mouse.kind))
            },
        }
    }

    /// Take in whether the child took a key.
    pub fn record_key(&mut self, accepted: bool) -> (r: InputResult)
        ensures
            ({
                let (console, changed) = old(self)@.console.delivered(accepted);
                &&& final(self)@ == old(self)@.with_console(console)
                &&& r == changed_result(changed)
            }),
    {
        if self.console.record_input_result(accepted) {
            InputResult::Changed
        } else {
            InputResult::Ignored
        }
    }

    /// Take in whether the terminal took a paste.
    pub fn record_paste(&mut self, accepted: bool) -> (r: InputResult)
        ensures
            r == InputResult::Changed,
            final(self)@ == old(self)@.warned(
                if accepted {
                    None
                } else {
                    Some(ConsoleWarning::PasteRejected)
                },
            ),
    {
        self.console.handle_paste(accepted);
        InputResult::Changed
    }

    /// Take in whether the child took a focus change.
    pub fn record_focus(&mut self, delivered: bool) -> (r: InputResult)
        ensures
            r == changed_result(!delivered),
            final(self)@ == (if delivered {
                old(self)@
            } else {
                old(self)@.warned(Some(ConsoleWarning::InputRejected))
            }),
    {
        if delivered {
            InputResult::Ignored
        } else {
            self.console.warn(ConsoleWarning::InputRejected);
            InputResult::Changed
        }
    }

    /// Route one mouse event that goes to the terminal, as the mouse router
    /// classified it.
    pub fn route_terminal_mouse(
        &mut self,
        mouse: MouseEvent,
        gesture_active: bool,
        route: Option<MouseRoute>,
        event_time: u64,
    ) -> (r: ConsoleStep)
        ensures
            ({
                let (console, step) = old(self)@.console.pointed(
                    mouse,
                    gesture_active,
                    route,
                    event_time,
                );
                &&& final(self)@ == old(self)@.with_console(console)
                &&& r == step
            }),
    {
        self.console.handle_mouse(mouse, gesture_active, route, event_time)
    }

    /// Take in whether the terminal took a mouse event.
    pub fn record_mouse(&mut self, accepted: bool, selects: bool) -> (r: Option<TerminalAction>)
        ensures
            ({
                let (console, action) = old(self)@.console.mouse_delivered(accepted, selects);
                &&& final(self)@ == old(self)@.with_console(console)
                &&& r == action
            }),
    {
        self.console.record_mouse_result(accepted, selects)
    }
}

/// The result of an event that changed something or nothing.
pub open spec fn changed_result(changed: bool) -> InputResult {
    if changed {
        InputResult::Changed
    } else {
        InputResult::Ignored
    }
}

fn done(changed: bool) -> (r: InputStep)
    ensures
        r@ == StepView::Done(changed_result(changed), None),
{
    if changed {
        InputStep::Done(InputResult::Changed, None)
    } else {
        InputStep::Done(InputResult::Ignored, None)
    }
}

/// The key that quits leaves every state unchanged.
pub proof fn quitting_changes_nothing(
    state: InteractionState,
    key: KeyEvent,
    repeats: int,
    pane: SelectedPane,
    process: ProcessSnapshot,
    output: RetainedOutput,
    pane_rows: u16,
    lines: Seq<ListLine>,
    layout: ProjectLayout,
)
    requires
        quits_project(key, state.console.view, state.log().search.editor is Some),
    ensures
        state.routed(Event::Key(key), repeats, pane, process, output, pane_rows, lines, layout) == (
            state,
            StepView::Done(InputResult::Quit, None),
        ),
{
}

/// Control and `q` quit from every state, also while a Process has the focus
/// and while a search is typed.
pub proof fn control_quits_everywhere(
    state: InteractionState,
    key: KeyEvent,
    repeats: int,
    pane: SelectedPane,
    process: ProcessSnapshot,
    output: RetainedOutput,
    pane_rows: u16,
    lines: Seq<ListLine>,
    layout: ProjectLayout,
)
    requires
        key.kind == KeyEventKind::Press,
        key.code == KeyCode::Char('q'),
        key.modifiers.control,
    ensures
        state.routed(Event::Key(key), repeats, pane, process, output, pane_rows, lines, layout) == (
            state,
            StepView::Done(InputResult::Quit, None),
        ),
{
}

/// An update leaves nothing queued: a second one with the same snapshot keeps
/// the selection and issues no command.
pub proof fn update_settles(state: InteractionState, snapshot: ProjectSnapshot)
    requires
        snapshot.processes@.len() > 0,
        0 <= state.selected,
    ensures
        state.updated(snapshot).0.updated(snapshot) == (
            state.updated(snapshot).0,
            false,
            Seq::<CommandRequest>::empty(),
        ),
{
    let count = snapshot.processes@.len() as int;
    let (first, _, _) = state.updated(snapshot);
    crate::console::selection_stays_on_the_list(
        smaller(state.selected, count - 1),
        state.console.moves,
        count,
    );
    let (second, changed, commands) = first.updated(snapshot);
    assert(second.logs =~= first.logs);
    assert(commands =~= Seq::<CommandRequest>::empty());
    assert(second.console == first.console);
    assert(second == first);
}

/// Truncated output is warned of once: a second look at the same Process keeps
/// whatever warning was set since.
pub proof fn truncation_is_warned_once(
    state: InteractionState,
    truncated: bool,
    warning: Option<ConsoleWarning>,
)
    requires
        0 <= state.selected <= usize::MAX,
    ensures
        state.on_logs(truncated).warned(warning).on_logs(truncated).console.view.warning == warning,
{
}

impl InteractionState {
    proof fn log_replaced(self, log: LogsState)
        requires
            self.wf(),
            log.wf(),
        ensures
            self.with_log(log).wf(),
            self.with_log(log).log() == log,
    {
        let next = self.with_log(log);
        assert forall|i: int| 0 <= i < next.logs.len() implies (#[trigger] next.logs[i]).wf() by {
            assert(self.logs[i].wf());
        }
    }
}

/// Keep or add Logs so that there is one for each Process.
fn resize_logs(logs: &mut Vec<ProcessLogs>, count: usize)
    ensures
        log_states(final(logs)@) == resized_logs(log_states(old(logs)@), count as int),
{
    let ghost before = logs@;
    while logs.len() > count
        invariant
            logs.len() >= count || logs.len() == before.len(),
            logs.len() <= before.len(),
            logs@ == before.take(logs.len() as int),
        decreases logs.len(),
    {
        logs.pop();
        proof {
            assert(logs@ =~= before.take(logs.len() as int));
        }
    }
    let ghost kept = logs@.len();
    while logs.len() < count
        invariant
            kept <= logs.len() <= count,
            kept == count || kept == before.len(),
            kept <= before.len(),
            forall|i: int| 0 <= i < kept ==> logs@[i] == before[i],
            forall|i: int| kept <= i < logs.len() ==> (#[trigger] logs@[i])@ == LogsState::fresh(),
        decreases count - logs.len(),
    {
        logs.push(ProcessLogs::default());
    }
    proof {
        assert(log_states(logs@) =~= resized_logs(log_states(before), count as int));
    }
}

/// Append the Supervisor commands of lifecycle requests.
fn append_commands(
    commands: &mut Vec<Command>,
    lifecycle: &Vec<LifecycleCommand>,
    process: &ProcessSnapshot,
)
    ensures
        requests(final(commands)@) == requests(old(commands)@) + lifecycle@.map_values(
            |command: LifecycleCommand| request_for(command, *process),
        ),
{
    let ghost before = requests(commands@);
    let ghost asked = lifecycle@.map_values(
        |command: LifecycleCommand| request_for(command, *process),
    );
    let mut index: usize = 0;
    proof {
        assert(before + asked.take(0) =~= before);
    }
    while index < lifecycle.len()
        invariant
            index <= lifecycle.len(),
            asked == lifecycle@.map_values(
                |command: LifecycleCommand| request_for(command, *process),
            ),
            requests(commands@) == before + asked.take(index as int),
        decreases lifecycle.len() - index,
    {
        let ghost prior = commands@;
        let command = lifecycle_command(lifecycle[index], process);
        commands.push(command);
        index = index + 1;
        proof {
            assert(requests(commands@) =~= requests(prior).push(command@));
            assert(asked.take(index as int) =~= asked.take(index - 1).push(command@));
            assert(before + asked.take(index as int) =~= (before + asked.take(index - 1)).push(
                command@,
            ));
        }
    }
    proof {
        assert(asked.take(index as int) =~= asked);
    }
}

} // verus!
