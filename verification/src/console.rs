//! Console focus, warnings and key routing.
//!
//! The console decides what a key or mouse event means. What a live terminal
//! has to do for it is returned as a `TerminalAction`; the caller performs it
//! and reports back whether the terminal took the input.

use vstd::prelude::*;

use crate::input::{
    KeyCode, KeyEvent, KeyEventKind, MouseButton, MouseEvent, MouseEventKind, Rect,
};
use crate::lifecycle::{lifecycle_request_for, LifecycleCommand, LifecycleQueue};
use crate::output::RetainedOutput;
use crate::pipe_scroll::ScrollbarGesture;
use crate::process_logs::{LogsNavigation, ProcessLogs};
use crate::scrollbar::{position_for_thumb, scrollbar_thumb, ConsoleScrollbar};

#[allow(unused_imports)]
use crate::lifecycle::requested;
#[allow(unused_imports)]
use crate::pipe_scroll::page_lines;
#[allow(unused_imports)]
use crate::process_logs::LogsState;
#[allow(unused_imports)]
use crate::scrollbar::{dragged_position, less, smaller, thumb};

verus! {

/// What the keyboard controls.
#[derive(Clone, Copy, Debug, PartialEq, Eq, Structural)]
pub enum ConsoleViewMode {
    ProcessList,
    Console,
    Copy,
}

/// What the console pane shows.
#[derive(Clone, Copy, Debug, PartialEq, Eq, Structural)]
pub enum ConsolePaneKind {
    Terminal,
    Pipe,
}

/// One visible warning.
#[derive(Clone, Copy, Debug, PartialEq, Eq, Structural)]
pub enum ConsoleWarning {
    InputDisabled,
    InputRejected,
    InputBackpressure,
    LogsCommandOnly,
    SelectionUnavailable,
    PasteRejected,
    PasteDeliveryFailed,
    ClipboardFailed,
    NothingSelected,
    NoLogsToCopy,
    OutputTruncated,
}

impl ConsoleWarning {
    /// Whether the warning is about the pane and ends when the pane changes.
    pub open spec fn of_pane(self) -> bool {
        self == ConsoleWarning::InputDisabled || self == ConsoleWarning::LogsCommandOnly || self
            == ConsoleWarning::SelectionUnavailable || self == ConsoleWarning::PasteRejected
    }
}

/// The console as it is drawn.
#[derive(Clone, Copy, Debug, PartialEq, Eq, Structural)]
pub struct ConsoleViewState {
    pub mode: ConsoleViewMode,
    pub pane: ConsolePaneKind,
    pub warning: Option<ConsoleWarning>,
    pub following: bool,
    pub stackhand_mouse_gesture: bool,
    pub profile_changes_pending: bool,
    pub start_anyway_available: bool,
    pub search_editing: bool,
    pub search_active: bool,
    pub logs_selection: bool,
    pub logs_scrollbar: Option<ConsoleScrollbar>,
}

impl ConsoleViewState {
    /// The console at startup: the Process list has the keyboard and the
    /// output follows its tail.
    pub open spec fn initial() -> Self {
        ConsoleViewState {
            mode: ConsoleViewMode::ProcessList,
            pane: ConsolePaneKind::Terminal,
            warning: None,
            following: true,
            stackhand_mouse_gesture: false,
            profile_changes_pending: false,
            start_anyway_available: false,
            search_editing: false,
            search_active: false,
            logs_selection: false,
            logs_scrollbar: None,
        }
    }

    /// The view without a warning about the pane.
    pub open spec fn without_pane_warning(self) -> Self {
        if self.warning is Some && self.warning->0.of_pane() {
            ConsoleViewState { warning: None, ..self }
        } else {
            self
        }
    }
}

impl Default for ConsoleViewState {
    fn default() -> (r: Self)
        ensures
            r == Self::initial(),
    {
        ConsoleViewState {
            mode: ConsoleViewMode::ProcessList,
            pane: ConsolePaneKind::Terminal,
            warning: None,
            following: true,
            stackhand_mouse_gesture: false,
            profile_changes_pending: false,
            start_anyway_available: false,
            search_editing: false,
            search_active: false,
            logs_selection: false,
            logs_scrollbar: None,
        }
    }
}

/// One requested move of the Process-list selection. The application event
/// loop owns the selected Process, so navigation never mutates Supervisor
/// truth.
#[derive(Clone, Copy, Debug, PartialEq, Eq, Structural)]
pub enum SelectionMove {
    Up,
    Down,
}

/// A direction of the Copy cursor.
#[derive(Clone, Copy, Debug, PartialEq, Eq, Structural)]
pub enum CopyDirection {
    Left,
    Down,
    Up,
    Right,
}

/// What a live terminal has to do.
#[derive(Clone, Copy, Debug, PartialEq, Eq, Structural)]
pub enum TerminalAction {
    ClearSelection,
    StartKeyboardSelection,
    MoveKeyboardSelection(CopyDirection),
    ToggleKeyboardSelection,
    SelectAll,
    RequestCopy,
    ScrollLines(isize),
    FollowLive,
    ScrollToRow(usize),
}

/// What came of an input event.
#[derive(Clone, Copy, Debug, PartialEq, Eq, Structural)]
pub enum ConsoleStep {
    /// Nothing changed.
    Ignored,
    /// The console changed; the terminal performs the action, if any.
    Changed(Option<TerminalAction>),
    /// The key goes to the child; its delivery is reported with
    /// `record_input_result`.
    DeliverKey(KeyEvent),
    /// The mouse event goes to the terminal; its delivery is reported with
    /// `record_mouse_result`. The flag says that keyboard selection starts
    /// after a quiet delivery.
    DeliverMouse(bool),
}

/// A key owned by Process-list focus. Terminal and pipe panes apply the same
/// meaning through their own output and selection seams.
#[derive(Clone, Copy, Debug, PartialEq, Eq, Structural)]
pub enum ProcessCommand {
    MoveSelection(SelectionMove),
    ScrollPage(isize),
    Follow,
    Lifecycle(LifecycleCommand),
    EnterCopy,
}

/// How the mouse router classified an event.
#[derive(Clone, Copy, Debug, PartialEq, Eq, Structural)]
pub struct MouseRoute {
    /// Stackhand, not the child, owns the event.
    pub stackhand_owned: bool,
    pub stackhand_gesture_active: bool,
    pub changes_history_view: bool,
}

/// The scroll range of a live terminal in rows.
#[derive(Clone, Copy, Debug, PartialEq, Eq, Structural)]
pub struct TerminalScrollbar {
    pub total: usize,
    pub offset: usize,
    pub len: usize,
}

impl TerminalScrollbar {
    /// The last row that can be at the top.
    pub open spec fn last_row(self) -> int {
        less(self.total as int, self.len as int)
    }
}

/// How near in time two presses count as a repeated click.
pub const REPEAT_NANOS: u64 = 500_000_000;

/// The command of a Process-list key.
pub open spec fn command_of(code: KeyCode) -> Option<ProcessCommand> {
    match code {
        KeyCode::Up => Some(ProcessCommand::MoveSelection(SelectionMove::Up)),
        KeyCode::Down => Some(ProcessCommand::MoveSelection(SelectionMove::Down)),
        KeyCode::PageUp => Some(ProcessCommand::ScrollPage((-1) as isize)),
        KeyCode::PageDown => Some(ProcessCommand::ScrollPage(1)),
        KeyCode::Char(character) => if character == 'k' {
            Some(ProcessCommand::MoveSelection(SelectionMove::Up))
        } else if character == 'j' {
            Some(ProcessCommand::MoveSelection(SelectionMove::Down))
        } else if character == 'f' {
            Some(ProcessCommand::Follow)
        } else if character == 'v' {
            Some(ProcessCommand::EnterCopy)
        } else {
            match requested(character) {
                Some(command) => Some(ProcessCommand::Lifecycle(command)),
                None => None,
            }
        },
        _ => None,
    }
}

/// The command of a Process-list key.
pub fn process_command(code: KeyCode) -> (r: Option<ProcessCommand>)
    ensures
        r == command_of(code),
{
    match code {
        KeyCode::Up => Some(ProcessCommand::MoveSelection(SelectionMove::Up)),
        KeyCode::Down => Some(ProcessCommand::MoveSelection(SelectionMove::Down)),
        KeyCode::PageUp => Some(ProcessCommand::ScrollPage(-1)),
        KeyCode::PageDown => Some(ProcessCommand::ScrollPage(1)),
        KeyCode::Char('k') => Some(ProcessCommand::MoveSelection(SelectionMove::Up)),
        KeyCode::Char('j') => Some(ProcessCommand::MoveSelection(SelectionMove::Down)),
        KeyCode::Char('f') => Some(ProcessCommand::Follow),
        KeyCode::Char('v') => Some(ProcessCommand::EnterCopy),
        KeyCode::Char(character) => match lifecycle_request_for(character) {
            Some(command) => Some(ProcessCommand::Lifecycle(command)),
            None => None,
        },
        _ => None,
    }
}

/// The key that moves the keyboard between the Process list and the console.
pub open spec fn toggles_focus(key: KeyEvent) -> bool {
    key.code == KeyCode::Char('a') && key.modifiers.control
}

/// Whether a key moves the keyboard between the Process list and the console.
pub fn is_focus_toggle(key: KeyEvent) -> (r: bool)
    ensures
        r == toggles_focus(key),
{
    key.code == KeyCode::Char('a') && key.modifiers.control
}

/// Whether a key for the child is refused because the Process takes no input.
pub open spec fn rejects_child_input(
    view: ConsoleViewState,
    input_focused: bool,
    key: KeyEvent,
) -> bool {
    !input_focused && view.mode == ConsoleViewMode::Console && !(key.kind == KeyEventKind::Press
        && toggles_focus(key))
}

/// Whether a key for the child is refused because the Process takes no input.
pub fn child_input_rejected(view: ConsoleViewState, input_focused: bool, key: &KeyEvent) -> (r:
    bool)
    ensures
        r == rejects_child_input(view, input_focused, *key),
{
    !input_focused && view.mode == ConsoleViewMode::Console && !(key.kind == KeyEventKind::Press
        && is_focus_toggle(*key))
}

/// The signed rows of a page move.
pub open spec fn page_distance(page_rows: u16, direction: isize) -> isize {
    (direction * page_lines(page_rows)) as isize
}

/// The signed rows of a page move.
fn page_scroll(page_rows: u16, direction: isize) -> (r: isize)
    requires
        direction == 1 || direction == -1,
    ensures
        r == page_distance(page_rows, direction),
{
    let page: isize = if page_rows <= 2 {
        1
    } else {
        (page_rows - 1) as isize
    };
    if direction > 0 {
        page
    } else {
        -page
    }
}

/// A key owned by Copy mode.
#[derive(Clone, Copy, Debug, PartialEq, Eq, Structural)]
pub enum CopyCommand {
    Move(CopyDirection),
    Toggle,
    SelectAll,
    Copy,
    ScrollPage(isize),
    Leave,
}

/// The command of a Copy key.
pub open spec fn copy_command_of(code: KeyCode) -> Option<CopyCommand> {
    match code {
        KeyCode::Left | KeyCode::Char('h') => Some(CopyCommand::Move(CopyDirection::Left)),
        KeyCode::Down | KeyCode::Char('j') => Some(CopyCommand::Move(CopyDirection::Down)),
        KeyCode::Up | KeyCode::Char('k') => Some(CopyCommand::Move(CopyDirection::Up)),
        KeyCode::Right | KeyCode::Char('l') => Some(CopyCommand::Move(CopyDirection::Right)),
        KeyCode::Char('v') => Some(CopyCommand::Toggle),
        KeyCode::Char('a') => Some(CopyCommand::SelectAll),
        KeyCode::Char('c') | KeyCode::Char('y') => Some(CopyCommand::Copy),
        KeyCode::PageUp => Some(CopyCommand::ScrollPage((-1) as isize)),
        KeyCode::PageDown => Some(CopyCommand::ScrollPage(1)),
        KeyCode::Char('q') | KeyCode::Esc => Some(CopyCommand::Leave),
        _ => None,
    }
}

/// The command of a Copy key.
pub fn copy_command(code: KeyCode) -> (r: Option<CopyCommand>)
    ensures
        r == copy_command_of(code),
{
    match code {
        KeyCode::Left => Some(CopyCommand::Move(CopyDirection::Left)),
        KeyCode::Char('h') => Some(CopyCommand::Move(CopyDirection::Left)),
        KeyCode::Down => Some(CopyCommand::Move(CopyDirection::Down)),
        KeyCode::Char('j') => Some(CopyCommand::Move(CopyDirection::Down)),
        KeyCode::Up => Some(CopyCommand::Move(CopyDirection::Up)),
        KeyCode::Char('k') => Some(CopyCommand::Move(CopyDirection::Up)),
        KeyCode::Right => Some(CopyCommand::Move(CopyDirection::Right)),
        KeyCode::Char('l') => Some(CopyCommand::Move(CopyDirection::Right)),
        KeyCode::Char('v') => Some(CopyCommand::Toggle),
        KeyCode::Char('a') => Some(CopyCommand::SelectAll),
        KeyCode::Char('c') => Some(CopyCommand::Copy),
        KeyCode::Char('y') => Some(CopyCommand::Copy),
        KeyCode::PageUp => Some(CopyCommand::ScrollPage(-1)),
        KeyCode::PageDown => Some(CopyCommand::ScrollPage(1)),
        KeyCode::Char('q') => Some(CopyCommand::Leave),
        KeyCode::Esc => Some(CopyCommand::Leave),
        _ => None,
    }
}

/// The selection after one move in a list of Processes.
pub open spec fn moved_selection(selected: int, direction: SelectionMove, count: int) -> int {
    match direction {
        SelectionMove::Up => less(selected, 1),
        SelectionMove::Down => smaller(selected + 1, count - 1),
    }
}

/// The selection after queued moves.
pub open spec fn moved_selections(selected: int, moves: Seq<SelectionMove>, count: int) -> int
    decreases moves.len(),
{
    if moves.len() == 0 {
        selected
    } else {
        moved_selection(moved_selections(selected, moves.drop_last(), count), moves.last(), count)
    }
}

/// The console as mathematical values.
pub struct ConsoleState {
    pub view: ConsoleViewState,
    pub mouse_gesture: bool,
    pub moves: Seq<SelectionMove>,
    pub commands: Seq<LifecycleCommand>,
    pub last_press: Option<(u16, u16, u64)>,
    pub return_mode: ConsoleViewMode,
    pub scrollbar_gesture: Option<ScrollbarGesture>,
}

impl ConsoleState {
    /// The console at startup.
    pub open spec fn fresh() -> Self {
        ConsoleState {
            view: ConsoleViewState::initial(),
            mouse_gesture: false,
            moves: Seq::empty(),
            commands: Seq::empty(),
            last_press: None,
            return_mode: ConsoleViewMode::ProcessList,
            scrollbar_gesture: None,
        }
    }

    /// The console with a warning, or without one.
    pub open spec fn warned(self, warning: Option<ConsoleWarning>) -> Self {
        ConsoleState { view: ConsoleViewState { warning, ..self.view }, ..self }
    }

    /// The console with another pane.
    pub open spec fn showing(self, pane: ConsolePaneKind) -> Self {
        let view = if self.view.pane != pane {
            self.view.without_pane_warning()
        } else {
            self.view
        };
        ConsoleState { view: ConsoleViewState { pane, ..view }, ..self }
    }

    /// Leaving Copy clears the terminal selection, where there is a terminal.
    pub open spec fn leaving_copy(self, has_session: bool) -> Option<TerminalAction> {
        if self.view.mode == ConsoleViewMode::Copy && has_session {
            Some(TerminalAction::ClearSelection)
        } else {
            None
        }
    }

    /// The console with the Process list focused.
    pub open spec fn on_list(self) -> Self {
        ConsoleState {
            view: ConsoleViewState {
                mode: ConsoleViewMode::ProcessList,
                stackhand_mouse_gesture: false,
                ..self.view
            },
            scrollbar_gesture: None,
            last_press: None,
            ..self
        }
    }

    /// The console with the pane focused.
    pub open spec fn on_console(self) -> Self {
        ConsoleState {
            view: ConsoleViewState {
                mode: ConsoleViewMode::Console,
                stackhand_mouse_gesture: false,
                ..self.view
            },
            scrollbar_gesture: None,
            last_press: if self.view.mode != ConsoleViewMode::Console {
                None
            } else {
                self.last_press
            },
            ..self
        }
    }

    /// A Process-list command over a live terminal.
    pub open spec fn commanded(self, command: ProcessCommand, page_rows: u16) -> (
        Self,
        Option<TerminalAction>,
    ) {
        match command {
            ProcessCommand::MoveSelection(direction) => (
                ConsoleState { moves: self.moves.push(direction), ..self },
                None,
            ),
            ProcessCommand::ScrollPage(direction) => (
                ConsoleState {
                    view: ConsoleViewState { following: false, ..self.view },
                    ..self
                },
                Some(TerminalAction::ScrollLines(page_distance(page_rows, direction))),
            ),
            ProcessCommand::Follow => (
                ConsoleState { view: ConsoleViewState { following: true, ..self.view }, ..self },
                Some(TerminalAction::FollowLive),
            ),
            ProcessCommand::Lifecycle(command) => (
                ConsoleState { commands: self.commands.push(command), ..self },
                None,
            ),
            ProcessCommand::EnterCopy => (
                ConsoleState {
                    view: ConsoleViewState {
                        mode: ConsoleViewMode::Copy,
                        following: false,
                        ..self.view
                    },
                    return_mode: self.view.mode,
                    ..self
                },
                Some(TerminalAction::StartKeyboardSelection),
            ),
        }
    }

    /// The console away from the live tail.
    pub open spec fn unfollowed(self) -> Self {
        ConsoleState { view: ConsoleViewState { following: false, ..self.view }, ..self }
    }

    /// Copy mode left for the focus that it was entered from.
    pub open spec fn returned(self) -> Self {
        ConsoleState {
            view: ConsoleViewState {
                mode: self.return_mode,
                stackhand_mouse_gesture: false,
                ..self.view
            },
            last_press: None,
            ..self
        }
    }

    /// One command in Copy mode.
    pub open spec fn copied(self, command: CopyCommand, page_rows: u16) -> (Self, TerminalAction) {
        match command {
            CopyCommand::Move(direction) => (
                self.unfollowed(),
                TerminalAction::MoveKeyboardSelection(direction),
            ),
            CopyCommand::Toggle => (self, TerminalAction::ToggleKeyboardSelection),
            CopyCommand::SelectAll => (self.unfollowed(), TerminalAction::SelectAll),
            CopyCommand::Copy => (self.warned(None), TerminalAction::RequestCopy),
            CopyCommand::ScrollPage(direction) => (
                self.unfollowed(),
                TerminalAction::ScrollLines(page_distance(page_rows, direction)),
            ),
            CopyCommand::Leave => (self.returned(), TerminalAction::ClearSelection),
        }
    }

    /// One key over a live terminal.
    pub open spec fn keyed(self, key: KeyEvent, page_rows: u16) -> (Self, ConsoleStep) {
        if toggles_focus(key) {
            if key.kind != KeyEventKind::Press {
                (self, ConsoleStep::Changed(None))
            } else if self.view.mode == ConsoleViewMode::ProcessList {
                (self.on_console(), ConsoleStep::Changed(self.leaving_copy(true)))
            } else {
                (self.on_list(), ConsoleStep::Changed(self.leaving_copy(true)))
            }
        } else if self.view.mode == ConsoleViewMode::Console {
            (self, ConsoleStep::DeliverKey(key))
        } else if key.kind != KeyEventKind::Press {
            (self, ConsoleStep::Ignored)
        } else if self.view.mode == ConsoleViewMode::ProcessList {
            match command_of(key.code) {
                Some(command) => {
                    let (state, action) = self.commanded(command, page_rows);
                    (state, ConsoleStep::Changed(action))
                },
                None => (self, ConsoleStep::Ignored),
            }
        } else {
            match copy_command_of(key.code) {
                Some(command) => {
                    let (state, action) = self.copied(command, page_rows);
                    (state, ConsoleStep::Changed(Some(action)))
                },
                None => (self, ConsoleStep::Ignored),
            }
        }
    }

    /// A Process-list command over Logs.
    pub open spec fn commanded_logs(
        self,
        command: ProcessCommand,
        logs: LogsState,
        page_rows: u16,
    ) -> (Self, LogsState) {
        let quiet = self.warned(None);
        match command {
            ProcessCommand::MoveSelection(direction) => (
                ConsoleState { moves: quiet.moves.push(direction), ..quiet },
                logs,
            ),
            ProcessCommand::ScrollPage(direction) => (
                ConsoleState {
                    view: ConsoleViewState { following: false, ..quiet.view },
                    ..quiet
                },
                LogsState {
                    scroll: logs.scroll.queued(page_lines(page_rows), direction),
                    ..logs
                },
            ),
            ProcessCommand::Follow => (
                ConsoleState {
                    view: ConsoleViewState { following: true, ..quiet.view },
                    ..quiet
                },
                LogsState { scroll: logs.scroll.at_tail(), ..logs },
            ),
            ProcessCommand::Lifecycle(command) => (
                ConsoleState { commands: quiet.commands.push(command), ..quiet },
                logs,
            ),
            ProcessCommand::EnterCopy => (
                self.warned(Some(ConsoleWarning::SelectionUnavailable)),
                logs,
            ),
        }
    }

    /// One key over a pane without a live terminal.
    pub open spec fn keyed_logs(self, key: KeyEvent, logs: LogsState, page_rows: u16) -> (
        Self,
        LogsState,
        bool,
    ) {
        let mode = self.view.mode;
        if key.kind != KeyEventKind::Press {
            (self, logs, false)
        } else if toggles_focus(key) {
            (
                ConsoleState {
                    view: ConsoleViewState {
                        mode: if mode == ConsoleViewMode::ProcessList {
                            ConsoleViewMode::Console
                        } else {
                            ConsoleViewMode::ProcessList
                        },
                        ..self.view
                    },
                    ..self
                },
                logs,
                true,
            )
        } else {
            match mode {
                ConsoleViewMode::Console => if self.view.pane == ConsolePaneKind::Pipe {
                    let (steered, navigation) = logs.steered(key, page_rows);
                    (
                        match navigation {
                            LogsNavigation::Changed => self.warned(None),
                            LogsNavigation::Exit => self.on_list().warned(None),
                            LogsNavigation::Unknown => self.warned(
                                Some(ConsoleWarning::LogsCommandOnly),
                            ),
                        },
                        steered,
                        true,
                    )
                } else {
                    (self.warned(Some(ConsoleWarning::InputDisabled)), logs, true)
                },
                ConsoleViewMode::ProcessList => match command_of(key.code) {
                    Some(command) => {
                        let (state, next) = self.commanded_logs(command, logs, page_rows);
                        (state, next, true)
                    },
                    None => (self, logs, false),
                },
                ConsoleViewMode::Copy => (
                    ConsoleState {
                        view: ConsoleViewState { mode: ConsoleViewMode::ProcessList, ..self.view },
                        ..self
                    },
                    logs,
                    true,
                ),
            }
        }
    }

    /// One key of the selected pane.
    #[verifier::opaque]
    pub open spec fn routed(
        self,
        pane: ConsolePaneKind,
        input_focused: bool,
        key: KeyEvent,
        logs: LogsState,
        page_rows: u16,
    ) -> (Self, LogsState, ConsoleStep) {
        let here = self.showing(pane);
        match pane {
            ConsolePaneKind::Terminal => if rejects_child_input(here.view, input_focused, key) {
                (
                    here.warned(Some(ConsoleWarning::InputDisabled)),
                    logs,
                    ConsoleStep::Changed(None),
                )
            } else {
                let (state, step) = here.keyed(key, page_rows);
                (state, logs, step)
            },
            ConsolePaneKind::Pipe => {
                let (state, next, changed) = here.keyed_logs(key, logs, page_rows);
                (
                    state,
                    next,
                    if changed {
                        ConsoleStep::Changed(None)
                    } else {
                        ConsoleStep::Ignored
                    },
                )
            },
        }
    }

    /// The delivery of input: a refusal warns, and a success ends any warning.
    pub open spec fn delivered(self, accepted: bool) -> (Self, bool) {
        if accepted {
            (self.warned(None), self.view.warning is Some)
        } else {
            (self.warned(Some(ConsoleWarning::InputRejected)), true)
        }
    }

    /// Whether a press follows the last one closely in place and time.
    pub open spec fn repeats_press(self, mouse: MouseEvent, now: u64) -> bool {
        match self.last_press {
            Some((column, row, prior)) => cell_distance(column, mouse.column) + cell_distance(
                row,
                mouse.row,
            ) <= 1 && less(now as int, prior as int) <= REPEAT_NANOS,
            None => false,
        }
    }

    /// One mouse event over a live terminal, as the mouse router classified it.
    pub open spec fn pointed(
        self,
        mouse: MouseEvent,
        gesture: bool,
        route: Option<MouseRoute>,
        now: u64,
    ) -> (Self, ConsoleStep) {
        let noted = ConsoleState { mouse_gesture: gesture, ..self };
        match route {
            None => (noted, ConsoleStep::Ignored),
            Some(route) => {
                let press = route.stackhand_owned && mouse.kind == MouseEventKind::Down(
                    MouseButton::Left,
                );
                let drag = route.stackhand_owned && mouse.kind == MouseEventKind::Drag(
                    MouseButton::Left,
                );
                let repeated = press && self.repeats_press(mouse, now);
                let starts = drag || repeated;
                let enters = starts && self.view.mode != ConsoleViewMode::Copy;
                (
                    ConsoleState {
                        view: ConsoleViewState {
                            mode: if starts {
                                ConsoleViewMode::Copy
                            } else {
                                self.view.mode
                            },
                            warning: if starts {
                                None
                            } else {
                                self.view.warning
                            },
                            following: if route.changes_history_view {
                                false
                            } else {
                                self.view.following
                            },
                            stackhand_mouse_gesture: route.stackhand_gesture_active,
                            ..self.view
                        },
                        last_press: if press {
                            Some((mouse.column, mouse.row, now))
                        } else {
                            self.last_press
                        },
                        return_mode: if enters {
                            self.view.mode
                        } else {
                            self.return_mode
                        },
                        ..noted
                    },
                    ConsoleStep::DeliverMouse(enters || repeated),
                )
            },
        }
    }

    /// The delivery of a mouse event.
    pub open spec fn mouse_delivered(self, accepted: bool, selects: bool) -> (
        Self,
        Option<TerminalAction>,
    ) {
        let (state, changed) = self.delivered(accepted);
        if changed {
            (
                ConsoleState {
                    view: ConsoleViewState { stackhand_mouse_gesture: false, ..state.view },
                    ..state
                },
                None,
            )
        } else if selects {
            (state, Some(TerminalAction::StartKeyboardSelection))
        } else {
            (state, None)
        }
    }

    /// The terminal scrolled so that its thumb starts at a row of the track.
    pub open spec fn thumbed(
        self,
        bar: TerminalScrollbar,
        drawn: ConsoleScrollbar,
        track_rows: int,
        thumb_start: int,
    ) -> (Self, usize) {
        let row = smaller(dragged_position(drawn, track_rows, thumb_start), bar.last_row());
        (
            ConsoleState {
                view: ConsoleViewState { following: row >= bar.last_row(), ..self.view },
                ..self
            },
            row as usize,
        )
    }

    /// The thumb of a live terminal taken hold of.
    pub open spec fn thumb_grabbed(self, grab_row: int, bar: TerminalScrollbar) -> Self {
        ConsoleState {
            view: ConsoleViewState {
                following: bar.offset >= bar.last_row(),
                warning: None,
                ..self.view
            },
            scrollbar_gesture: Some(ScrollbarGesture::Thumb { grab_row: grab_row as usize }),
            ..self
        }
    }

    /// The track of a live terminal pressed, which moves the thumb there.
    pub open spec fn track_pressed(
        self,
        thumb_start: int,
        track_rows: int,
        bar: TerminalScrollbar,
        drawn: ConsoleScrollbar,
    ) -> (Self, ConsoleStep) {
        let (state, target) = self.thumbed(bar, drawn, track_rows, thumb_start);
        (
            ConsoleState { scrollbar_gesture: Some(ScrollbarGesture::Track), ..state.warned(None) },
            ConsoleStep::Changed(Some(TerminalAction::ScrollToRow(target))),
        )
    }

    /// A pressed scrollbar of a live terminal: the thumb is taken hold of, or
    /// moved to where the track was pressed.
    pub open spec fn scrollbar_pressed(
        self,
        row: int,
        track_rows: int,
        bar: TerminalScrollbar,
        drawn: ConsoleScrollbar,
    ) -> (Self, ConsoleStep) {
        let (start, length) = thumb(drawn, track_rows);
        if start <= row < start + length {
            (self.thumb_grabbed(row - start, bar), ConsoleStep::Changed(None))
        } else {
            self.track_pressed(less(row, length / 2), track_rows, bar, drawn)
        }
    }

    /// A held scrollbar of a live terminal, with the pointer dragged.
    pub open spec fn scrollbar_dragged(
        self,
        row: int,
        track_rows: int,
        bar: TerminalScrollbar,
        drawn: Option<ConsoleScrollbar>,
    ) -> (Self, ConsoleStep) {
        match (drawn, self.scrollbar_gesture) {
            (Some(drawn), Some(ScrollbarGesture::Thumb { grab_row })) => {
                let (state, target) = self.thumbed(
                    bar,
                    drawn,
                    track_rows,
                    less(row, grab_row as int),
                );
                (state, ConsoleStep::Changed(Some(TerminalAction::ScrollToRow(target))))
            },
            _ => (self, ConsoleStep::Changed(None)),
        }
    }

    /// One mouse event on or off the scrollbar of a live terminal.
    pub open spec fn scrollbar_pointed(
        self,
        mouse: MouseEvent,
        area: Rect,
        bar: TerminalScrollbar,
        drawn: Option<ConsoleScrollbar>,
    ) -> (Self, ConsoleStep) {
        let held = self.scrollbar_gesture is Some;
        if held && mouse.kind == MouseEventKind::Up(MouseButton::Left) {
            (ConsoleState { scrollbar_gesture: None, ..self }, ConsoleStep::Changed(None))
        } else if held && mouse.kind == MouseEventKind::Drag(MouseButton::Left) {
            self.scrollbar_dragged(area.nearest_row(mouse.row), area.height as int, bar, drawn)
        } else if drawn is None || !presses_scrollbar(mouse, area) {
            (self, ConsoleStep::Ignored)
        } else {
            let focused = if self.view.mode == ConsoleViewMode::ProcessList {
                self.on_console()
            } else {
                self
            };
            focused.scrollbar_pressed(mouse.row - area.y, area.height as int, bar, drawn->0)
        }
    }
}

/// Whether a mouse event presses the scrollbar in the last column of an area.
pub open spec fn presses_scrollbar(mouse: MouseEvent, area: Rect) -> bool {
    area.width > 1 && area.height > 0 && mouse.kind == MouseEventKind::Down(MouseButton::Left)
        && mouse.column == less(area.right_edge() as int, 1) && area.y <= mouse.row
        && mouse.row < area.bottom_edge()
}

/// The distance of two cells along one axis.
pub open spec fn cell_distance(a: u16, b: u16) -> int {
    if a <= b {
        b - a
    } else {
        a - b
    }
}

/// Console focus, warnings and pending requests.
pub struct ConsoleInteraction {
    view: ConsoleViewState,
    mouse_gesture: bool,
    selection_requests: Vec<SelectionMove>,
    lifecycle_requests: LifecycleQueue,
    last_stackhand_press: Option<(u16, u16, u64)>,
    copy_return_mode: ConsoleViewMode,
    terminal_scrollbar_gesture: Option<ScrollbarGesture>,
}

impl ConsoleInteraction {
    /// The console as mathematical values.
    pub closed spec fn state(&self) -> ConsoleState {
        ConsoleState {
            view: self.view,
            mouse_gesture: self.mouse_gesture,
            moves: self.selection_requests@,
            commands: self.lifecycle_requests@,
            last_press: self.last_stackhand_press,
            return_mode: self.copy_return_mode,
            scrollbar_gesture: self.terminal_scrollbar_gesture,
        }
    }
}

impl Default for ConsoleInteraction {
    fn default() -> (r: Self)
        ensures
            r.state() == ConsoleState::fresh(),
    {
        ConsoleInteraction {
            view: ConsoleViewState::default(),
            mouse_gesture: false,
            selection_requests: Vec::new(),
            lifecycle_requests: LifecycleQueue::new(),
            last_stackhand_press: None,
            copy_return_mode: ConsoleViewMode::ProcessList,
            terminal_scrollbar_gesture: None,
        }
    }
}

impl ConsoleInteraction {
    /// What a frame shows of the console.
    pub fn view(&self) -> (r: ConsoleViewState)
        ensures
            r == self.state().view,
    {
        self.view
    }

    /// Show a warning.
    pub fn warn(&mut self, warning: ConsoleWarning)
        ensures
            final(self).state() == old(self).state().warned(Some(warning)),
    {
        self.view.warning = Some(warning);
    }

    /// Show another pane.
    pub fn set_pane(&mut self, pane: ConsolePaneKind)
        ensures
            final(self).state() == old(self).state().showing(pane),
    {
        if self.view.pane != pane {
            self.clear_pane_warning();
        }
        self.view.pane = pane;
    }

    /// Clear a warning about the shown pane.
    pub fn clear_pane_warning(&mut self)
        ensures
            final(self).state() == (ConsoleState {
                view: old(self).state().view.without_pane_warning(),
                ..old(self).state()
            }),
    {
        let about_pane = match self.view.warning {
            Some(ConsoleWarning::InputDisabled) => true,
            Some(ConsoleWarning::LogsCommandOnly) => true,
            Some(ConsoleWarning::SelectionUnavailable) => true,
            Some(ConsoleWarning::PasteRejected) => true,
            _ => false,
        };
        if about_pane {
            self.view.warning = None;
        }
    }

    /// Clear the warning.
    pub fn clear_warning(&mut self)
        ensures
            final(self).state() == old(self).state().warned(None),
    {
        self.view.warning = None;
    }

    fn set_mode(&mut self, mode: ConsoleViewMode)
        ensures
            final(self).state() == (ConsoleState {
                view: ConsoleViewState { mode, ..old(self).state().view },
                ..old(self).state()
            }),
    {
        self.view.mode = mode;
    }

    fn set_following(&mut self, following: bool)
        ensures
            final(self).state() == (ConsoleState {
                view: ConsoleViewState { following, ..old(self).state().view },
                ..old(self).state()
            }),
    {
        self.view.following = following;
    }

    /// Focus the Process list. Leaving Copy also clears its terminal
    /// selection so stale selected cells do not look active.
    pub fn focus_process_list(&mut self, has_session: bool) -> (r: Option<TerminalAction>)
        ensures
            final(self).state() == old(self).state().on_list(),
            r == old(self).state().leaving_copy(has_session),
    {
        let action = if self.view.mode == ConsoleViewMode::Copy && has_session {
            Some(TerminalAction::ClearSelection)
        } else {
            None
        };
        self.view.mode = ConsoleViewMode::ProcessList;
        self.view.stackhand_mouse_gesture = false;
        self.terminal_scrollbar_gesture = None;
        self.last_stackhand_press = None;
        action
    }

    /// Focus the selected console. Only an input-enabled PTY will forward
    /// unbound keys; pipe and empty consoles stay read-only.
    pub fn focus_console(&mut self, has_session: bool) -> (r: Option<TerminalAction>)
        ensures
            final(self).state() == old(self).state().on_console(),
            r == old(self).state().leaving_copy(has_session),
    {
        let reset_mouse_clicks = self.view.mode != ConsoleViewMode::Console;
        let action = if self.view.mode == ConsoleViewMode::Copy && has_session {
            Some(TerminalAction::ClearSelection)
        } else {
            None
        };
        self.view.mode = ConsoleViewMode::Console;
        self.view.stackhand_mouse_gesture = false;
        self.terminal_scrollbar_gesture = None;
        if reset_mouse_clicks {
            self.last_stackhand_press = None;
        }
        action
    }

    /// Whether input goes to the Process.
    pub fn accepts_child_input(&self, input_focused: bool) -> (r: bool)
        ensures
            r == (self.state().view.mode == ConsoleViewMode::Console && self.state().view.pane
                == ConsolePaneKind::Terminal && input_focused),
    {
        self.view.mode == ConsoleViewMode::Console && self.view.pane == ConsolePaneKind::Terminal
            && input_focused
    }

    /// Whether a mouse gesture is held.
    pub fn mouse_gesture_active(&self) -> (r: bool)
        ensures
            r == self.state().mouse_gesture,
    {
        self.mouse_gesture
    }

    /// Whether the scrollbar of the terminal is held.
    pub fn terminal_scrollbar_gesture_active(&self) -> (r: bool)
        ensures
            r == (self.state().scrollbar_gesture is Some),
    {
        self.terminal_scrollbar_gesture.is_some()
    }

    /// Let the scrollbar of the terminal go.
    pub fn cancel_terminal_scrollbar_gesture(&mut self)
        ensures
            final(self).state() == (ConsoleState { scrollbar_gesture: None, ..old(self).state() }),
    {
        self.terminal_scrollbar_gesture = None;
    }

    /// Take the pending selection moves.
    pub fn take_selection_moves(&mut self) -> (r: Vec<SelectionMove>)
        ensures
            r@ == old(self).state().moves,
            final(self).state() == (ConsoleState { moves: Seq::empty(), ..old(self).state() }),
    {
        let mut taken: Vec<SelectionMove> = Vec::new();
        std::mem::swap(&mut taken, &mut self.selection_requests);
        taken
    }

    /// Apply the queued moves to the selection. Each stays within the list of
    /// Processes; a move ends a warning about the pane that it leaves.
    pub fn apply_selection_moves(&mut self, selected: &mut usize, process_count: usize) -> (r: bool)
        ensures
            process_count == 0 ==> !r && *final(selected) == *old(selected) && final(self).state() == old(self).state(),
            process_count > 0 ==> {
                &&& r == (old(self).state().moves.len() > 0)
                &&& *final(selected) == moved_selections(
                    smaller(*old(selected) as int, process_count - 1),
                    old(self).state().moves,
                    process_count as int,
                )
                &&& *final(selected) < process_count
                &&& final(self).state() == (ConsoleState {
                    moves: Seq::empty(),
                    view: if old(self).state().moves.len() > 0 {
                        old(self).state().view.without_pane_warning()
                    } else {
                        old(self).state().view
                    },
                    ..old(self).state()
                })
            },
    {
        if process_count == 0 {
            return false;
        }
        let ghost before = self.state();
        let ghost start = smaller(*selected as int, process_count - 1);
        if *selected > process_count - 1 {
            *selected = process_count - 1;
        }
        let requests = self.take_selection_moves();
        let mut index: usize = 0;
        while index < requests.len()
            invariant
                index <= requests.len(),
                process_count > 0,
                *selected < process_count,
                before.moves == requests@,
                *selected == moved_selections(
                    start,
                    requests@.take(index as int),
                    process_count as int,
                ),
                self.state() == (ConsoleState {
                    moves: Seq::empty(),
                    view: if index > 0 {
                        before.view.without_pane_warning()
                    } else {
                        before.view
                    },
                    ..before
                }),
            decreases requests.len() - index,
        {
            proof {
                assert(requests@.take(index + 1).drop_last() =~= requests@.take(index as int));
                assert(requests@.take(index + 1).last() == requests@[index as int]);
            }
            match requests[index] {
                SelectionMove::Up => {
                    if *selected > 0 {
                        *selected = *selected - 1;
                    }
                },
                SelectionMove::Down => {
                    if *selected < process_count - 1 {
                        *selected = *selected + 1;
                    }
                },
            }
            self.clear_pane_warning();
            index = index + 1;
        }
        proof {
            assert(requests@.take(index as int) =~= requests@);
        }
        requests.len() > 0
    }

    /// Take the pending lifecycle commands.
    pub fn take_lifecycle_commands(&mut self) -> (r: Vec<LifecycleCommand>)
        ensures
            r@ == old(self).state().commands,
            final(self).state() == (ConsoleState { commands: Seq::empty(), ..old(self).state() }),
    {
        self.lifecycle_requests.take()
    }

    /// Take in what ended since the last call: whether a paste could not be
    /// delivered, and the outcome of each finished copy in order. Copied text
    /// goes to the clipboard through `write`.
    pub fn poll_requests<W: Fn(String) -> Result<(), String>>(
        &mut self,
        paste_failed: bool,
        copies: Vec<Result<Option<String>, String>>,
        write: W,
    ) -> (r: bool)
        requires
            forall|text: String| #[trigger] write.requires((text,)),
        ensures
            r == (paste_failed || copies@.len() > 0),
            copies@.len() == 0 ==> final(self).state() == (if paste_failed {
                old(self).state().warned(Some(ConsoleWarning::PasteDeliveryFailed))
            } else {
                old(self).state()
            }),
            copies@.len() > 0 ==> final(self).state() == old(self).state().warned(final(self).state().view.warning)
                && copy_outcome(write, copies@.last(), final(self).state().view.warning),
            forall|i: int| 0 <= i < copies@.len() ==> copy_taken(write, #[trigger] copies@[i]),
    {
        let ghost before = self.state();
        let mut copies = copies;
        let ghost all = copies@;
        let mut changed = paste_failed;
        if paste_failed {
            self.view.warning = Some(ConsoleWarning::PasteDeliveryFailed);
        }
        let count: usize = copies.len();
        while copies.len() > 0
            invariant
                forall|text: String| #[trigger] write.requires((text,)),
                copies.len() <= count,
                count == all.len(),
                copies@ == all.skip(all.len() - copies.len()),
                changed == (paste_failed || copies.len() < count),
                self.state() == before.warned(self.state().view.warning),
                copies.len() == count ==> self.state() == (if paste_failed {
                    before.warned(Some(ConsoleWarning::PasteDeliveryFailed))
                } else {
                    before
                }),
                copies.len() < count ==> copy_outcome(
                    write,
                    all[all.len() - copies.len() - 1],
                    self.state().view.warning,
                ),
                forall|i: int|
                    0 <= i < all.len() - copies.len() ==> copy_taken(write, #[trigger] all[i]),
            decreases copies.len(),
        {
            let result = copies.remove(0);
            self.view.warning = copy_warning(result, &write);
            changed = true;
            proof {
                assert(copy_outcome(write, result, self.view.warning));
                assert(copy_taken(write, all[all.len() - copies.len() - 1]));
            }
        }
        changed
    }

    /// Route one key by the selected pane. A terminal pane owns a live
    /// session; every other pane shows Logs.
    pub fn route_pane_key(
        &mut self,
        pane: ConsolePaneKind,
        input_focused: bool,
        key: KeyEvent,
        logs: &mut ProcessLogs,
        page_rows: u16,
    ) -> (r: ConsoleStep)
        ensures
            (final(self).state(), final(logs)@, r) == old(self).state().routed(
                pane,
                input_focused,
                key,
                old(logs)@,
                page_rows,
            ),
    {
        proof {
            reveal(ConsoleState::routed);
        }
        self.set_pane(pane);
        match pane {
            ConsolePaneKind::Terminal => {
                if child_input_rejected(self.view(), input_focused, &key) {
                    self.warn(ConsoleWarning::InputDisabled);
                    return ConsoleStep::Changed(None);
                }
                self.handle_key(key, page_rows)
            },
            ConsolePaneKind::Pipe => {
                if self.handle_key_read_only(key, logs, page_rows) {
                    ConsoleStep::Changed(None)
                } else {
                    ConsoleStep::Ignored
                }
            },
        }
    }

    /// Route one key over a live terminal.
    pub fn handle_key(&mut self, key: KeyEvent, page_rows: u16) -> (r: ConsoleStep)
        ensures
            (final(self).state(), r) == old(self).state().keyed(key, page_rows),
    {
        // Stackhand owns every event in the Ctrl-A key cycle. In terminals
        // that report event types, forwarding the release after focus moves
        // to the console would leak part of the binding to the child.
        if is_focus_toggle(key) {
            if key.kind == KeyEventKind::Press {
                let action = match self.view.mode {
                    ConsoleViewMode::ProcessList => self.focus_console(true),
                    _ => self.focus_process_list(true),
                };
                return ConsoleStep::Changed(action);
            }
            return ConsoleStep::Changed(None);
        }
        if key.kind != KeyEventKind::Press {
            return if self.view.mode == ConsoleViewMode::Console {
                ConsoleStep::DeliverKey(key)
            } else {
                ConsoleStep::Ignored
            };
        }
        match self.view.mode {
            ConsoleViewMode::Console => ConsoleStep::DeliverKey(key),
            ConsoleViewMode::ProcessList => match process_command(key.code) {
                Some(command) => ConsoleStep::Changed(
                    self.apply_terminal_command(command, page_rows),
                ),
                None => ConsoleStep::Ignored,
            },
            ConsoleViewMode::Copy => match copy_command(key.code) {
                Some(command) => ConsoleStep::Changed(
                    Some(self.apply_copy_command(command, page_rows)),
                ),
                None => ConsoleStep::Ignored,
            },
        }
    }

    /// Route one key over a pane without a live terminal.
    pub fn handle_key_read_only(
        &mut self,
        key: KeyEvent,
        logs: &mut ProcessLogs,
        page_rows: u16,
    ) -> (r: bool)
        ensures
            (final(self).state(), final(logs)@, r) == old(self).state().keyed_logs(key, old(logs)@, page_rows),
    {
        if key.kind != KeyEventKind::Press {
            return false;
        }
        if is_focus_toggle(key) {
            self.set_mode(
                match self.view.mode {
                    ConsoleViewMode::ProcessList => ConsoleViewMode::Console,
                    _ => ConsoleViewMode::ProcessList,
                },
            );
            return true;
        }
        match self.view.mode {
            ConsoleViewMode::Console => {
                if self.view.pane == ConsolePaneKind::Pipe {
                    self.handle_logs_focus_key(key, logs, page_rows);
                } else {
                    self.warn(ConsoleWarning::InputDisabled);
                }
                true
            },
            ConsoleViewMode::ProcessList => match process_command(key.code) {
                Some(command) => {
                    self.apply_read_only_command(command, logs, page_rows);
                    true
                },
                None => false,
            },
            ConsoleViewMode::Copy => {
                self.set_mode(ConsoleViewMode::ProcessList);
                true
            },
        }
    }

    /// Copy the visible Logs projection. Logs coordinates never cross the
    /// terminal seam, and a clipboard failure leaves the visible text intact.
    /// Nothing is written where there is no text.
    pub fn copy_logs<W: FnOnce(String) -> Result<(), String>>(&mut self, text: String, write: W)
        requires
            text@.len() > 0 ==> write.requires((text,)),
        ensures
            final(self).state() == old(self).state().warned(final(self).state().view.warning),
            text@.len() == 0 ==> final(self).state().view.warning == Some(ConsoleWarning::NoLogsToCopy),
            text@.len() > 0 ==> exists|written: Result<(), String>| #[trigger]
                write.ensures((text,), written) && final(self).state().view.warning == write_warning(
                    written,
                ),
    {
        self.view.warning = if text.as_str().unicode_len() == 0 {
            Some(ConsoleWarning::NoLogsToCopy)
        } else {
            match write(text) {
                Ok(_) => None,
                Err(_) => Some(ConsoleWarning::ClipboardFailed),
            }
        };
    }

    /// Take in whether the terminal took a paste.
    pub fn handle_paste(&mut self, accepted: bool)
        ensures
            final(self).state() == old(self).state().warned(
                if accepted {
                    None
                } else {
                    Some(ConsoleWarning::PasteRejected)
                },
            ),
    {
        self.view.warning = if accepted {
            None
        } else {
            Some(ConsoleWarning::PasteRejected)
        };
    }

    /// Route one mouse event over Logs.
    pub fn handle_read_only_mouse(
        &mut self,
        mouse: MouseEvent,
        area: Rect,
        repeats: usize,
        logs: &mut ProcessLogs,
        output: &RetainedOutput,
    ) -> (r: bool)
        requires
            output.wf(),
        ensures
            (final(logs)@, r) == old(logs)@.pointed(mouse, area, repeats as int, *output),
            final(self).state() == (if r {
                old(self).state().warned(None)
            } else {
                old(self).state()
            }),
    {
        if !logs.handle_mouse(mouse, area, repeats, output) {
            return false;
        }
        self.clear_warning();
        true
    }

    /// Own hit testing and drag mapping for the live PTY scrollbar. The
    /// scrollbar uses the terminal's absolute row space, so the terminal
    /// remains the source of truth for retained history and viewport position.
    pub fn handle_terminal_scrollbar_mouse(
        &mut self,
        mouse: MouseEvent,
        area: Rect,
        bar: TerminalScrollbar,
        drawn: Option<ConsoleScrollbar>,
    ) -> (r: ConsoleStep)
        ensures
            (final(self).state(), r) == old(self).state().scrollbar_pointed(mouse, area, bar, drawn),
    {
        if self.terminal_scrollbar_gesture.is_some() {
            match mouse.kind {
                MouseEventKind::Up(MouseButton::Left) => {
                    self.terminal_scrollbar_gesture = None;
                    return ConsoleStep::Changed(None);
                },
                MouseEventKind::Drag(MouseButton::Left) => {
                    return self.drag_terminal_scrollbar(
                        area.clamped_row(mouse.row),
                        area.height as usize,
                        bar,
                        drawn,
                    );
                },
                _ => {},
            }
        }
        let scrollbar = match drawn {
            Some(scrollbar) => scrollbar,
            None => {
                return ConsoleStep::Ignored;
            },
        };
        if area.width <= 1 || area.height == 0 {
            return ConsoleStep::Ignored;
        }
        if !is_left_press(mouse.kind) || mouse.column != area.right().saturating_sub(1) || mouse.row
            < area.y || mouse.row >= area.bottom() {
            return ConsoleStep::Ignored;
        }
        if self.view.mode == ConsoleViewMode::ProcessList {
            self.focus_console(true);
        }
        self.press_terminal_scrollbar(
            (mouse.row - area.y) as usize,
            area.height as usize,
            bar,
            scrollbar,
        )
    }

    fn drag_terminal_scrollbar(
        &mut self,
        row: usize,
        track_rows: usize,
        bar: TerminalScrollbar,
        drawn: Option<ConsoleScrollbar>,
    ) -> (r: ConsoleStep)
        ensures
            (final(self).state(), r) == old(self).state().scrollbar_dragged(
                row as int,
                track_rows as int,
                bar,
                drawn,
            ),
    {
        match (drawn, self.terminal_scrollbar_gesture) {
            (Some(scrollbar), Some(ScrollbarGesture::Thumb { grab_row })) => {
                let action = self.set_terminal_scrollbar_thumb(
                    bar,
                    scrollbar,
                    track_rows,
                    row.saturating_sub(grab_row),
                );
                ConsoleStep::Changed(Some(action))
            },
            _ => ConsoleStep::Changed(None),
        }
    }

    #[verifier::spinoff_prover]
    fn press_terminal_scrollbar(
        &mut self,
        row: usize,
        track_rows: usize,
        bar: TerminalScrollbar,
        scrollbar: ConsoleScrollbar,
    ) -> (r: ConsoleStep)
        ensures
            (final(self).state(), r) == old(self).state().scrollbar_pressed(
                row as int,
                track_rows as int,
                bar,
                scrollbar,
            ),
    {
        let (thumb_start, thumb_len) = scrollbar_thumb(scrollbar, track_rows);
        if row >= thumb_start && row - thumb_start < thumb_len {
            self.grab_thumb(row - thumb_start, bar);
            ConsoleStep::Changed(None)
        } else {
            self.press_track(row.saturating_sub(thumb_len / 2), track_rows, bar, scrollbar)
        }
    }

    fn grab_thumb(&mut self, grab_row: usize, bar: TerminalScrollbar)
        ensures
            final(self).state() == old(self).state().thumb_grabbed(grab_row as int, bar),
    {
        self.set_following(bar.offset >= bar.total.saturating_sub(bar.len));
        self.clear_warning();
        self.hold_scrollbar(ScrollbarGesture::Thumb { grab_row });
    }

    #[verifier::spinoff_prover]
    fn press_track(
        &mut self,
        thumb_start: usize,
        track_rows: usize,
        bar: TerminalScrollbar,
        scrollbar: ConsoleScrollbar,
    ) -> (r: ConsoleStep)
        ensures
            (final(self).state(), r) == old(self).state().track_pressed(
                thumb_start as int,
                track_rows as int,
                bar,
                scrollbar,
            ),
    {
        let action = self.set_terminal_scrollbar_thumb(bar, scrollbar, track_rows, thumb_start);
        self.clear_warning();
        self.hold_scrollbar(ScrollbarGesture::Track);
        ConsoleStep::Changed(Some(action))
    }

    fn hold_scrollbar(&mut self, gesture: ScrollbarGesture)
        ensures
            final(self).state() == (ConsoleState {
                scrollbar_gesture: Some(gesture),
                ..old(self).state()
            }),
    {
        self.terminal_scrollbar_gesture = Some(gesture);
    }

    fn set_terminal_scrollbar_thumb(
        &mut self,
        bar: TerminalScrollbar,
        scrollbar: ConsoleScrollbar,
        track_rows: usize,
        thumb_start: usize,
    ) -> (r: TerminalAction)
        ensures
            (final(self).state(), r) == ({
                let (state, row) = old(self).state().thumbed(
                    bar,
                    scrollbar,
                    track_rows as int,
                    thumb_start as int,
                );
                (state, TerminalAction::ScrollToRow(row))
            }),
    {
        let position: usize = position_for_thumb(scrollbar, track_rows, thumb_start);
        let max_row: usize = bar.total.saturating_sub(bar.len);
        let row: usize = if position <= max_row {
            position
        } else {
            max_row
        };
        self.set_following(row >= max_row);
        TerminalAction::ScrollToRow(row)
    }

    /// Route one mouse event over a live terminal. The mouse router says
    /// whether a gesture is under way and how it classified the event;
    /// `event_time` counts nanoseconds on one clock.
    pub fn handle_mouse(
        &mut self,
        mouse: MouseEvent,
        gesture_active: bool,
        route: Option<MouseRoute>,
        event_time: u64,
    ) -> (r: ConsoleStep)
        ensures
            (final(self).state(), r) == old(self).state().pointed(mouse, gesture_active, route, event_time),
    {
        self.mouse_gesture = gesture_active;
        let route = match route {
            Some(route) => route,
            None => {
                return ConsoleStep::Ignored;
            },
        };
        let view = self.view;
        let press = route.stackhand_owned && is_left_press(mouse.kind);
        let drag = route.stackhand_owned && is_left_drag(mouse.kind);
        let repeated_press = press && self.follows_press(mouse, event_time);
        if press {
            self.last_stackhand_press = Some((mouse.column, mouse.row, event_time));
        }
        let starts_copy = drag || repeated_press;
        let enters_copy = starts_copy && view.mode != ConsoleViewMode::Copy;
        if enters_copy {
            self.copy_return_mode = view.mode;
        }
        self.view = ConsoleViewState {
            mode: if starts_copy {
                ConsoleViewMode::Copy
            } else {
                view.mode
            },
            warning: if starts_copy {
                None
            } else {
                view.warning
            },
            following: view.following && !route.changes_history_view,
            stackhand_mouse_gesture: route.stackhand_gesture_active,
            ..view
        };
        ConsoleStep::DeliverMouse(enters_copy || repeated_press)
    }

    fn follows_press(&self, mouse: MouseEvent, event_time: u64) -> (r: bool)
        ensures
            r == self.state().repeats_press(mouse, event_time),
    {
        match self.last_stackhand_press {
            Some((column, row, prior_time)) => cells_apart(column, mouse.column) + cells_apart(
                row,
                mouse.row,
            ) <= 1 && event_time.saturating_sub(prior_time) <= REPEAT_NANOS,
            None => false,
        }
    }

    /// Take in whether the terminal took a mouse event. The mouse selection
    /// supplies the anchor and endpoint. Enabling keyboard navigation makes
    /// that endpoint visible and lets Vim movement extend it without replacing
    /// the mouse selection.
    pub fn record_mouse_result(&mut self, accepted: bool, selects: bool) -> (r: Option<
        TerminalAction,
    >)
        ensures
            (final(self).state(), r) == old(self).state().mouse_delivered(accepted, selects),
    {
        if self.record_input_result(accepted) {
            self.view.stackhand_mouse_gesture = false;
            None
        } else if selects {
            Some(TerminalAction::StartKeyboardSelection)
        } else {
            None
        }
    }

    /// Take in whether the terminal took a key. Says whether the console
    /// changed.
    pub fn record_input_result(&mut self, accepted: bool) -> (r: bool)
        ensures
            (final(self).state(), r) == old(self).state().delivered(accepted),
    {
        if !accepted {
            self.view.warning = Some(ConsoleWarning::InputRejected);
            true
        } else {
            let warned = self.view.warning.is_some();
            self.view.warning = None;
            warned
        }
    }

    fn apply_terminal_command(&mut self, command: ProcessCommand, page_rows: u16) -> (r: Option<
        TerminalAction,
    >)
        requires
            command matches ProcessCommand::ScrollPage(direction) ==> direction == 1 || direction
                == -1,
        ensures
            (final(self).state(), r) == old(self).state().commanded(command, page_rows),
    {
        match command {
            ProcessCommand::MoveSelection(direction) => {
                self.selection_requests.push(direction);
                None
            },
            ProcessCommand::ScrollPage(direction) => {
                self.view.following = false;
                Some(TerminalAction::ScrollLines(page_scroll(page_rows, direction)))
            },
            ProcessCommand::Follow => {
                self.view.following = true;
                Some(TerminalAction::FollowLive)
            },
            ProcessCommand::Lifecycle(request) => {
                self.lifecycle_requests.queue(request);
                None
            },
            ProcessCommand::EnterCopy => {
                self.copy_return_mode = self.view.mode;
                self.view.mode = ConsoleViewMode::Copy;
                self.view.following = false;
                Some(TerminalAction::StartKeyboardSelection)
            },
        }
    }

    fn apply_read_only_command(
        &mut self,
        command: ProcessCommand,
        logs: &mut ProcessLogs,
        page_rows: u16,
    )
        ensures
            (final(self).state(), final(logs)@) == old(self).state().commanded_logs(
                command,
                old(logs)@,
                page_rows,
            ),
    {
        self.clear_warning();
        match command {
            ProcessCommand::MoveSelection(direction) => {
                self.selection_requests.push(direction);
            },
            ProcessCommand::ScrollPage(direction) => {
                logs.scroll_page(page_rows, direction);
                self.set_following(false);
            },
            ProcessCommand::Follow => {
                logs.follow();
                self.set_following(true);
            },
            ProcessCommand::Lifecycle(request) => {
                self.lifecycle_requests.queue(request);
            },
            ProcessCommand::EnterCopy => {
                self.view.warning = Some(ConsoleWarning::SelectionUnavailable);
            },
        }
    }

    fn handle_logs_focus_key(&mut self, key: KeyEvent, logs: &mut ProcessLogs, page_rows: u16)
        requires
            key.kind == KeyEventKind::Press,
            !toggles_focus(key),
            old(self).state().view.mode == ConsoleViewMode::Console,
            old(self).state().view.pane == ConsolePaneKind::Pipe,
        ensures
            (final(self).state(), final(logs)@, true) == old(self).state().keyed_logs(key, old(logs)@, page_rows),
    {
        match logs.handle_navigation_key(key, page_rows) {
            LogsNavigation::Changed => self.clear_warning(),
            LogsNavigation::Exit => {
                self.focus_process_list(false);
                self.clear_warning();
            },
            LogsNavigation::Unknown => {
                self.view.warning = Some(ConsoleWarning::LogsCommandOnly);
            },
        }
    }

    fn apply_copy_command(&mut self, command: CopyCommand, page_rows: u16) -> (r: TerminalAction)
        requires
            command matches CopyCommand::ScrollPage(direction) ==> direction == 1 || direction
                == -1,
        ensures
            (final(self).state(), r) == old(self).state().copied(command, page_rows),
    {
        match command {
            CopyCommand::Move(direction) => {
                self.set_following(false);
                TerminalAction::MoveKeyboardSelection(direction)
            },
            CopyCommand::Toggle => TerminalAction::ToggleKeyboardSelection,
            CopyCommand::SelectAll => {
                self.set_following(false);
                TerminalAction::SelectAll
            },
            CopyCommand::Copy => {
                self.clear_warning();
                TerminalAction::RequestCopy
            },
            CopyCommand::ScrollPage(direction) => {
                self.set_following(false);
                TerminalAction::ScrollLines(page_scroll(page_rows, direction))
            },
            CopyCommand::Leave => {
                self.leave_copy();
                TerminalAction::ClearSelection
            },
        }
    }

    fn leave_copy(&mut self)
        ensures
            final(self).state() == old(self).state().returned(),
    {
        self.view.mode = self.copy_return_mode;
        self.view.stackhand_mouse_gesture = false;
        self.last_stackhand_press = None;
    }
}

fn is_left_press(kind: MouseEventKind) -> (r: bool)
    ensures
        r == (kind == MouseEventKind::Down(MouseButton::Left)),
{
    match kind {
        MouseEventKind::Down(MouseButton::Left) => true,
        _ => false,
    }
}

fn is_left_drag(kind: MouseEventKind) -> (r: bool)
    ensures
        r == (kind == MouseEventKind::Drag(MouseButton::Left)),
{
    match kind {
        MouseEventKind::Drag(MouseButton::Left) => true,
        _ => false,
    }
}

/// The distance of two cells along one axis.
fn cells_apart(a: u16, b: u16) -> (r: u32)
    ensures
        r == cell_distance(a, b),
        r <= 0xffff,
{
    if a <= b {
        (b - a) as u32
    } else {
        (a - b) as u32
    }
}

/// The warning after a write to the clipboard.
pub open spec fn write_warning(written: Result<(), String>) -> Option<ConsoleWarning> {
    if written is Ok {
        None
    } else {
        Some(ConsoleWarning::ClipboardFailed)
    }
}

/// The warning after a finished copy, where `write` sends text to the
/// clipboard.
pub open spec fn copy_outcome<W: FnOnce(String) -> Result<(), String>>(
    write: W,
    result: Result<Option<String>, String>,
    warning: Option<ConsoleWarning>,
) -> bool {
    match result {
        Ok(Some(text)) => if text@.len() > 0 {
            exists|written: Result<(), String>| #[trigger]
                write.ensures((text,), written) && warning == write_warning(written)
        } else {
            warning == Some(ConsoleWarning::NothingSelected)
        },
        Ok(None) => warning == Some(ConsoleWarning::NothingSelected),
        Err(_) => warning == Some(ConsoleWarning::ClipboardFailed),
    }
}

/// Whether a finished copy was taken in: its text, where it has any, went to
/// the clipboard through `write`.
pub open spec fn copy_taken<W: FnOnce(String) -> Result<(), String>>(
    write: W,
    result: Result<Option<String>, String>,
) -> bool {
    exists|warning: Option<ConsoleWarning>| #[trigger] copy_outcome(write, result, warning)
}

/// The warning after a finished copy. Text goes to the clipboard through
/// `write`; nothing else does.
pub fn copy_warning<W: FnOnce(String) -> Result<(), String>>(
    result: Result<Option<String>, String>,
    write: W,
) -> (r: Option<ConsoleWarning>)
    requires
        result matches Ok(Some(text)) ==> write.requires((text,)),
    ensures
        copy_outcome(write, result, r),
{
    match result {
        Ok(Some(text)) => {
            if text.as_str().unicode_len() == 0 {
                return Some(ConsoleWarning::NothingSelected);
            }
            match write(text) {
                Ok(_) => None,
                Err(_) => Some(ConsoleWarning::ClipboardFailed),
            }
        },
        Ok(None) => Some(ConsoleWarning::NothingSelected),
        Err(_) => Some(ConsoleWarning::ClipboardFailed),
    }
}

/// A move keeps the selection on a Process of the list.
pub proof fn selection_stays_on_the_list(selected: int, moves: Seq<SelectionMove>, count: int)
    requires
        0 <= selected < count,
    ensures
        0 <= moved_selections(selected, moves, count) < count,
    decreases moves.len(),
{
    if moves.len() > 0 {
        selection_stays_on_the_list(selected, moves.drop_last(), count);
    }
}

/// The focus key leads from the Process list to the console and back, and
/// keeps the warning, the pane and whether output is followed.
pub proof fn focus_toggle_returns(state: ConsoleState, key: KeyEvent, page_rows: u16)
    requires
        toggles_focus(key),
        key.kind == KeyEventKind::Press,
        state.view.mode == ConsoleViewMode::ProcessList,
    ensures
        state.keyed(key, page_rows).0.view.mode == ConsoleViewMode::Console,
        state.keyed(key, page_rows).0.keyed(key, page_rows).0 == state.on_list(),
        state.on_list().view.warning == state.view.warning,
        state.on_list().view.pane == state.view.pane,
        state.on_list().view.following == state.view.following,
{
}

/// A child that takes no input never gets a key.
pub proof fn disabled_input_is_never_delivered(
    state: ConsoleState,
    pane: ConsolePaneKind,
    key: KeyEvent,
    logs: LogsState,
    page_rows: u16,
)
    ensures
        !(state.routed(pane, false, key, logs, page_rows).2 is DeliverKey),
{
    reveal(ConsoleState::routed);
}

/// No part of the focus binding reaches a child: neither its press nor the
/// repeat and release events of the same keys.
pub proof fn focus_binding_stays_with_the_console(state: ConsoleState, key: KeyEvent, page_rows: u16)
    requires
        toggles_focus(key),
    ensures
        !(state.keyed(key, page_rows).1 is DeliverKey),
{
}

/// Copy mode ends where it began.
pub proof fn copy_returns_to_its_start(
    state: ConsoleState,
    enter: KeyEvent,
    leave: KeyEvent,
    page_rows: u16,
)
    requires
        state.view.mode == ConsoleViewMode::ProcessList,
        enter.kind == KeyEventKind::Press,
        leave.kind == KeyEventKind::Press,
        enter.code == KeyCode::Char('v'),
        leave.code == KeyCode::Esc || leave.code == KeyCode::Char('q'),
    ensures
        state.keyed(enter, page_rows).0.view.mode == ConsoleViewMode::Copy,
        state.keyed(enter, page_rows).0.keyed(leave, page_rows).0.view.mode
            == ConsoleViewMode::ProcessList,
{
}

/// A routed key moves through Logs, but never touches their search.
pub proof fn routing_keeps_the_search(
    state: ConsoleState,
    pane: ConsolePaneKind,
    input_focused: bool,
    key: KeyEvent,
    logs: LogsState,
    page_rows: u16,
)
    ensures
        state.routed(pane, input_focused, key, logs, page_rows).1.search == logs.search,
{
    reveal(ConsoleState::routed);
}

} // verus!
