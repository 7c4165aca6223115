//! What the keys and the mouse do to the console and to the Project.

use vstd::prelude::*;

#[allow(unused_imports)]
use crate::console::{
    moved_selection, moved_selections, page_distance, ConsolePaneKind, ConsoleState, ConsoleStep, ConsoleViewMode,
    ConsoleWarning, CopyDirection, SelectionMove, TerminalAction,
};
#[allow(unused_imports)]
use crate::input::{
    Event, KeyCode, KeyEvent, KeyEventKind, MouseButton, MouseEvent, MouseEventKind, Rect,
};
#[allow(unused_imports)]
use crate::interaction::{
    Command, CommandRequest, InputResult, InteractionState, ProjectLayout, SelectedPane, StepView,
    TerminalNotice,
};
#[allow(unused_imports)]
use crate::lifecycle::{requested, LifecycleCommand};
#[allow(unused_imports)]
use crate::log_laws::plainly_pressed;
#[allow(unused_imports)]
use crate::model::ProcessKind;
#[allow(unused_imports)]
use crate::output::RetainedOutput;
#[allow(unused_imports)]
use crate::pipe_scroll::page_lines;
#[allow(unused_imports)]
use crate::process_logs::{LogsEffect, LogsNavigation, LogsState};
#[allow(unused_imports)]
use crate::snapshot::{Lifecycle, ProcessSnapshot, ProjectSnapshot};
#[allow(unused_imports)]
use crate::view_model::{process_under, ListLine};

verus! {

/// The command that a lifecycle request becomes for a Process: started and
/// stopped as asked, and a One-shot runs again where a Service restarts.
pub open spec fn asked_of(
    request: CommandRequest,
    command: LifecycleCommand,
    process: ProcessSnapshot,
) -> bool {
    match command {
        LifecycleCommand::Start => request == CommandRequest::Start(process.name@),
        LifecycleCommand::Stop => request == CommandRequest::Stop(process.name@),
        LifecycleCommand::Restart => match process.kind {
            ProcessKind::OneShot => request == CommandRequest::Rerun(process.name@),
            ProcessKind::Service => request == CommandRequest::Restart(process.name@),
        },
    }
}

/// An update asks the Supervisor for every queued lifecycle request, in order,
/// behind the Project commands that were queued, and of the selected Process.
pub proof fn queued_requests_are_asked(state: InteractionState, snapshot: ProjectSnapshot, k: int)
    requires
        0 <= k < state.console.commands.len(),
        snapshot.processes@.len() > 0,
    ensures
        ({
            let (after, _, requests) = state.updated(snapshot);
            &&& requests.len() == state.commands.len() + state.console.commands.len()
            &&& requests.take(state.commands.len() as int) == state.commands
            &&& asked_of(
                requests[state.commands.len() + k],
                state.console.commands[k],
                snapshot.processes@[after.selected],
            )
        }),
{
    let (_, _, requests) = state.updated(snapshot);
    assert(requests.take(state.commands.len() as int) =~= state.commands);
}

/// A command and what the Supervisor is asked are the same thing.
pub proof fn commands_mean_what_they_say(command: Command, name: Seq<char>)
    ensures
        command@ == CommandRequest::Start(name) <==> (command matches Command::Start(text) && text@
            == name),
        command@ == CommandRequest::Stop(name) <==> (command matches Command::Stop(text) && text@
            == name),
        command@ == CommandRequest::Restart(name) <==> (command matches Command::Restart(text)
            && text@ == name),
        command@ == CommandRequest::Rerun(name) <==> (command matches Command::Rerun(text) && text@
            == name),
        command@ == CommandRequest::StartAnyway(name) <==> (command matches Command::StartAnyway(
            text,
        ) && text@ == name),
        command@ is StartAutostart <==> command is StartAutostart,
        command@ is StopAll <==> command is StopAll,
        command@ is SelectNextProcessProfile <==> command is SelectNextProcessProfile,
        command@ is RestartProfiledAutostart <==> command is RestartProfiledAutostart,
{
}

/// A move up or down selects the neighbour, and stays at the ends.
pub proof fn moves_select_the_neighbour(selected: int, count: int)
    requires
        0 <= selected < count,
    ensures
        moved_selection(selected, SelectionMove::Down, count) == (if selected + 1 < count {
            selected + 1
        } else {
            selected
        }),
        moved_selection(selected, SelectionMove::Up, count) == (if selected > 0 {
            selected - 1
        } else {
            selected
        }),
{
}

/// Every queued move of the selection is made, in order.
pub proof fn queued_moves_are_made(
    selected: int,
    moves: Seq<SelectionMove>,
    next: SelectionMove,
    count: int,
)
    ensures
        moved_selections(selected, Seq::empty(), count) == selected,
        moved_selections(selected, moves.push(next), count) == moved_selection(
            moved_selections(selected, moves, count),
            next,
            count,
        ),
{
    assert(moves.push(next).drop_last() =~= moves);
}

/// The selection starts from the selected Process, or from the last one where
/// the list became shorter, and only queued moves change it.
pub proof fn the_selection_moves_only_as_asked(state: InteractionState, snapshot: ProjectSnapshot)
    requires
        0 <= state.selected,
        snapshot.processes@.len() > 0,
        state.console.moves.len() == 0,
    ensures
        state.selected < snapshot.processes@.len() ==> state.updated(snapshot).0.selected
            == state.selected,
        state.selected >= snapshot.processes@.len() ==> state.updated(snapshot).0.selected
            == snapshot.processes@.len() - 1,
        !state.updated(snapshot).1,
{
}

/// Whether a lifecycle key of the Process list asks for a command.
pub open spec fn asks_for(code: KeyCode, command: LifecycleCommand) -> bool {
    match command {
        LifecycleCommand::Start => code == KeyCode::Char('s'),
        LifecycleCommand::Stop => code == KeyCode::Char('x'),
        LifecycleCommand::Restart => code == KeyCode::Char('r'),
    }
}

/// With the Process list focused, `s`, `x` and `r` queue a start, a stop and a
/// restart, whatever the selected Process shows.
pub proof fn lifecycle_keys_queue_their_command(
    state: ConsoleState,
    pane: ConsolePaneKind,
    input_focused: bool,
    key: KeyEvent,
    logs: LogsState,
    rows: u16,
    command: LifecycleCommand,
)
    requires
        state.view.mode == ConsoleViewMode::ProcessList,
        key.kind == KeyEventKind::Press,
        asks_for(key.code, command),
    ensures
        ({
            let (after, next, step) = state.routed(pane, input_focused, key, logs, rows);
            &&& after.commands == state.commands.push(command)
            &&& after.moves == state.moves
            &&& after.view.mode == ConsoleViewMode::ProcessList
            &&& next == logs
            &&& step == ConsoleStep::Changed(None)
        }),
{
    reveal(ConsoleState::routed);
}

/// With the Process list focused, `j`, `k` and the arrows queue one move of the
/// selection.
pub proof fn selection_keys_queue_their_move(
    state: ConsoleState,
    pane: ConsolePaneKind,
    input_focused: bool,
    key: KeyEvent,
    logs: LogsState,
    rows: u16,
)
    requires
        state.view.mode == ConsoleViewMode::ProcessList,
        key.kind == KeyEventKind::Press,
    ensures
        ({
            let (after, next, step) = state.routed(pane, input_focused, key, logs, rows);
            let down = key.code == KeyCode::Char('j') || key.code == KeyCode::Down;
            let up = key.code == KeyCode::Char('k') || key.code == KeyCode::Up;
            &&& down ==> after.moves == state.moves.push(SelectionMove::Down)
            &&& up ==> after.moves == state.moves.push(SelectionMove::Up)
            &&& down || up ==> after.commands == state.commands && next == logs && step
                == ConsoleStep::Changed(None)
        }),
{
    reveal(ConsoleState::routed);
}

proof fn pages_are_signed(rows: u16)
    ensures
        page_distance(rows, (-1) as isize) == (-page_lines(rows)) as isize,
        page_distance(rows, 1) == page_lines(rows) as isize,
{
    let back = (-1) as isize;
    let page = page_lines(rows);
    assert(back * page == -page) by (nonlinear_arith)
        requires
            back == -1,
    ;
    assert(1isize * page == page) by (nonlinear_arith);
}

/// With the Process list focused over a terminal, PageUp and PageDown scroll it
/// back and forth by the same distance, `f` follows the tail, and `v` enters
/// Copy mode.
pub proof fn list_keys_steer_a_terminal(
    state: ConsoleState,
    input_focused: bool,
    key: KeyEvent,
    logs: LogsState,
    rows: u16,
)
    requires
        state.view.mode == ConsoleViewMode::ProcessList,
        key.kind == KeyEventKind::Press,
    ensures
        ({
            let (after, next, step) = state.routed(
                ConsolePaneKind::Terminal,
                input_focused,
                key,
                logs,
                rows,
            );
            let page = if rows > 2 {
                rows - 1
            } else {
                1
            };
            &&& key.code == KeyCode::PageUp ==> step == ConsoleStep::Changed(
                Some(TerminalAction::ScrollLines((-page) as isize)),
            ) && !after.view.following
            &&& key.code == KeyCode::PageDown ==> step == ConsoleStep::Changed(
                Some(TerminalAction::ScrollLines(page as isize)),
            ) && !after.view.following
            &&& key.code == KeyCode::Char('f') ==> step == ConsoleStep::Changed(
                Some(TerminalAction::FollowLive),
            ) && after.view.following
            &&& key.code == KeyCode::Char('v') ==> step == ConsoleStep::Changed(
                Some(TerminalAction::StartKeyboardSelection),
            ) && after.view.mode == ConsoleViewMode::Copy && after.return_mode
                == ConsoleViewMode::ProcessList
        }),
{
    pages_are_signed(rows);
    reveal(ConsoleState::routed);
}

/// A focused terminal that takes input gets every key, pressed, repeated or
/// released, but for Control-A, which leads back to the Process list.
pub proof fn a_focused_terminal_gets_its_keys(
    state: ConsoleState,
    key: KeyEvent,
    logs: LogsState,
    rows: u16,
)
    requires
        state.view.mode == ConsoleViewMode::Console,
    ensures
        ({
            let (after, _, step) = state.routed(ConsolePaneKind::Terminal, true, key, logs, rows);
            let leaves = key.code == KeyCode::Char('a') && key.modifiers.control;
            &&& !leaves ==> step == ConsoleStep::DeliverKey(key) && after.view.mode
                == ConsoleViewMode::Console
            &&& leaves && key.kind == KeyEventKind::Press ==> after.view.mode
                == ConsoleViewMode::ProcessList
        }),
{
    reveal(ConsoleState::routed);
}

/// Control-A leads from the Process list to the console, whatever it shows.
pub proof fn the_focus_key_enters_the_console(
    state: ConsoleState,
    pane: ConsolePaneKind,
    input_focused: bool,
    key: KeyEvent,
    logs: LogsState,
    rows: u16,
)
    requires
        state.view.mode == ConsoleViewMode::ProcessList,
        key.kind == KeyEventKind::Press,
        key.code == KeyCode::Char('a'),
        key.modifiers.control,
    ensures
        state.routed(pane, input_focused, key, logs, rows).0.view.mode == ConsoleViewMode::Console,
{
    reveal(ConsoleState::routed);
}

/// The keys of Copy mode: move, toggle, select all, copy, page, and leave.
pub proof fn copy_keys_do_as_listed(
    state: ConsoleState,
    input_focused: bool,
    key: KeyEvent,
    logs: LogsState,
    rows: u16,
)
    requires
        state.view.mode == ConsoleViewMode::Copy,
        key.kind == KeyEventKind::Press,
        !key.modifiers.control,
    ensures
        ({
            let (after, _, step) = state.routed(
                ConsolePaneKind::Terminal,
                input_focused,
                key,
                logs,
                rows,
            );
            let acts = |action: TerminalAction| step == ConsoleStep::Changed(Some(action));
            let page = if rows > 2 {
                rows - 1
            } else {
                1
            };
            let code = key.code;
            &&& code == KeyCode::Char('h') || code == KeyCode::Left ==> acts(
                TerminalAction::MoveKeyboardSelection(CopyDirection::Left),
            )
            &&& code == KeyCode::Char('j') || code == KeyCode::Down ==> acts(
                TerminalAction::MoveKeyboardSelection(CopyDirection::Down),
            )
            &&& code == KeyCode::Char('k') || code == KeyCode::Up ==> acts(
                TerminalAction::MoveKeyboardSelection(CopyDirection::Up),
            )
            &&& code == KeyCode::Char('l') || code == KeyCode::Right ==> acts(
                TerminalAction::MoveKeyboardSelection(CopyDirection::Right),
            )
            &&& code == KeyCode::Char('v') ==> acts(TerminalAction::ToggleKeyboardSelection)
            &&& code == KeyCode::Char('a') ==> acts(TerminalAction::SelectAll)
            &&& code == KeyCode::Char('c') || code == KeyCode::Char('y') ==> acts(
                TerminalAction::RequestCopy,
            )
            &&& code == KeyCode::PageUp ==> acts(TerminalAction::ScrollLines((-page) as isize))
            &&& code == KeyCode::PageDown ==> acts(TerminalAction::ScrollLines(page as isize))
            &&& code == KeyCode::Esc || code == KeyCode::Char('q') ==> acts(
                TerminalAction::ClearSelection,
            ) && after.view.mode == state.return_mode
            &&& !(code == KeyCode::Esc || code == KeyCode::Char('q')) ==> after.view.mode
                == ConsoleViewMode::Copy
        }),
{
    pages_are_signed(rows);
    reveal(ConsoleState::routed);
}

/// Focused Logs are steered by keys and never reach a child: lines and pages up
/// and down, both ends, and the way back to the Process list.
pub proof fn log_navigation_does_as_listed(logs: LogsState, key: KeyEvent, rows: u16)
    ensures
        ({
            let (after, navigation) = logs.steered(key, rows);
            let page = if rows > 2 {
                rows - 1
            } else {
                1
            };
            let code = key.code;
            &&& code == KeyCode::Char('k') || code == KeyCode::Up ==> after.scroll
                == logs.scroll.queued(1, (-1) as isize)
            &&& code == KeyCode::Char('j') || code == KeyCode::Down ==> after.scroll
                == logs.scroll.queued(1, 1)
            &&& code == KeyCode::PageUp ==> after.scroll == logs.scroll.queued(page, (-1) as isize)
            &&& code == KeyCode::PageDown ==> after.scroll == logs.scroll.queued(page, 1)
            &&& code == KeyCode::Home ==> after.scroll == logs.scroll.at_head()
            &&& code == KeyCode::End || code == KeyCode::Char('f') ==> after.scroll
                == logs.scroll.at_tail()
            &&& code == KeyCode::Char('q') ==> navigation == LogsNavigation::Exit && after == logs
            &&& code == KeyCode::Esc ==> after.scroll.selection is None && (navigation
                == LogsNavigation::Exit <==> logs.scroll.selection is None)
            &&& after.search == logs.search
        }),
{
}

/// Leaving focused Logs leads to the Process list, and steering them does not.
pub proof fn leaving_logs_leads_to_the_list(
    state: ConsoleState,
    input_focused: bool,
    key: KeyEvent,
    logs: LogsState,
    rows: u16,
)
    requires
        state.view.mode == ConsoleViewMode::Console,
        key.kind == KeyEventKind::Press,
        !key.modifiers.control,
    ensures
        ({
            let (after, next, _) = state.routed(
                ConsolePaneKind::Pipe,
                input_focused,
                key,
                logs,
                rows,
            );
            let (steered, navigation) = logs.steered(key, rows);
            &&& next == steered
            &&& after.view.mode == ConsoleViewMode::ProcessList <==> navigation
                == LogsNavigation::Exit
            &&& navigation == LogsNavigation::Unknown ==> after.view.warning == Some(
                ConsoleWarning::LogsCommandOnly,
            )
        }),
{
    reveal(ConsoleState::routed);
}

/// With the Process list focused, `p` asks for the next Profile, `R` applies a
/// pending one, and `S` starts a waiting Process anyway; each is queued once
/// and for the selected Process.
pub proof fn project_keys_queue_their_command(
    state: InteractionState,
    key: KeyEvent,
    repeats: int,
    pane: SelectedPane,
    process: ProcessSnapshot,
    output: RetainedOutput,
    rows: u16,
    lines: Seq<ListLine>,
    layout: ProjectLayout,
)
    requires
        state.console.view.mode == ConsoleViewMode::ProcessList,
    ensures
        ({
            let after = state.routed(
                Event::Key(key),
                repeats,
                pane,
                process,
                output,
                rows,
                lines,
                layout,
            ).0;
            &&& plainly_pressed(key, KeyCode::Char('p')) ==> after.commands == state.commands.push(
                CommandRequest::SelectNextProcessProfile,
            )
            &&& plainly_pressed(key, KeyCode::Char('R')) && state.profile_pending
                ==> after.commands == state.commands.push(CommandRequest::RestartProfiledAutostart)
            &&& plainly_pressed(key, KeyCode::Char('S')) && process.lifecycle == Lifecycle::Waiting
                ==> after.commands == state.commands.push(
                CommandRequest::StartAnyway(process.name@),
            )
            &&& !(plainly_pressed(key, KeyCode::Char('p')) || plainly_pressed(
                key,
                KeyCode::Char('R'),
            ) || plainly_pressed(key, KeyCode::Char('S'))) ==> after.commands == state.commands
        }),
{
    reveal(ConsoleState::routed);
}

proof fn a_focused_console_queues_nothing(
    state: ConsoleState,
    pane: ConsolePaneKind,
    input_focused: bool,
    key: KeyEvent,
    logs: LogsState,
    rows: u16,
)
    requires
        state.view.mode != ConsoleViewMode::ProcessList,
    ensures
        state.routed(pane, input_focused, key, logs, rows).0.commands == state.commands,
        state.routed(pane, input_focused, key, logs, rows).0.moves == state.moves,
{
    reveal(ConsoleState::routed);
}

/// Where the Process list is not focused, no key queues a Project command or a
/// lifecycle request.
pub proof fn a_focused_console_commands_nothing(
    state: InteractionState,
    key: KeyEvent,
    repeats: int,
    pane: SelectedPane,
    process: ProcessSnapshot,
    output: RetainedOutput,
    rows: u16,
    lines: Seq<ListLine>,
    layout: ProjectLayout,
)
    requires
        state.console.view.mode != ConsoleViewMode::ProcessList,
    ensures
        ({
            let after = state.routed(
                Event::Key(key),
                repeats,
                pane,
                process,
                output,
                rows,
                lines,
                layout,
            ).0;
            &&& after.commands == state.commands
            &&& after.console.commands == state.console.commands
            &&& after.console.moves == state.console.moves
        }),
{
    let rows_shown = if rows == 0 {
        1u16
    } else {
        rows
    };
    let (log, effect) = state.log().keyed(
        key,
        state.console.view.mode == ConsoleViewMode::ProcessList,
        pane is Terminal,
        output,
        rows_shown as int,
    );
    let searched = state.with_log(log);
    let kind = if pane is Terminal {
        ConsolePaneKind::Terminal
    } else {
        ConsolePaneKind::Pipe
    };
    a_focused_console_queues_nothing(
        state.console,
        kind,
        process.input_focused,
        key,
        searched.log(),
        rows_shown,
    );
}

/// From the key to the Supervisor: with the Process list focused and no search
/// typed, pressing `s`, `x` or `r` and then updating asks for just that command
/// of the selected Process, as the last one.
pub proof fn a_pressed_lifecycle_key_is_asked_for(
    state: InteractionState,
    key: KeyEvent,
    repeats: int,
    pane: SelectedPane,
    process: ProcessSnapshot,
    output: RetainedOutput,
    rows: u16,
    lines: Seq<ListLine>,
    layout: ProjectLayout,
    snapshot: ProjectSnapshot,
    command: LifecycleCommand,
)
    requires
        state.wf(),
        state.console.view.mode == ConsoleViewMode::ProcessList,
        state.console.moves.len() == 0,
        state.log().search.editor is None,
        plainly_pressed(key, key.code),
        asks_for(key.code, command),
        pane matches SelectedPane::Terminal { live, .. } ==> live,
        state.selected < snapshot.processes@.len(),
    ensures
        ({
            let after = state.routed(
                Event::Key(key),
                repeats,
                pane,
                process,
                output,
                rows,
                lines,
                layout,
            ).0;
            let requests = after.updated(snapshot).2;
            &&& requests.len() == state.commands.len() + state.console.commands.len() + 1
            &&& asked_of(requests.last(), command, snapshot.processes@[state.selected])
        }),
{
    reveal(ConsoleState::routed);
    let after = state.routed(
        Event::Key(key),
        repeats,
        pane,
        process,
        output,
        rows,
        lines,
        layout,
    ).0;
    assert(after.commands == state.commands);
    assert(after.console.commands == state.console.commands.push(command));
    assert(after.selected == state.selected);
    queued_requests_are_asked(after, snapshot, state.console.commands.len() as int);
    let requests = after.updated(snapshot).2;
    assert(requests.last() == requests[after.commands.len() as int + state.console.commands.len() as int]);
}

/// `q` quits from the Process list, and only there without Control.
pub proof fn the_quit_key_quits_from_the_list(
    state: InteractionState,
    key: KeyEvent,
    repeats: int,
    pane: SelectedPane,
    process: ProcessSnapshot,
    output: RetainedOutput,
    rows: u16,
    lines: Seq<ListLine>,
    layout: ProjectLayout,
)
    requires
        key.kind == KeyEventKind::Press,
        !key.modifiers.control,
    ensures
        ({
            let step = state.routed(
                Event::Key(key),
                repeats,
                pane,
                process,
                output,
                rows,
                lines,
                layout,
            ).1;
            step == StepView::Done(InputResult::Quit, None) <==> {
                &&& key.code == KeyCode::Char('q')
                &&& state.console.view.mode == ConsoleViewMode::ProcessList
                &&& state.log().search.editor is None
                &&& !key.modifiers.shift && !key.modifiers.alt && !key.modifiers.other
            }
        }),
{
    reveal(ConsoleState::routed);
}

/// A click on the line of a Process selects it, and a wheel over the list moves
/// the selection by its steps, within the list.
pub proof fn the_mouse_selects_processes(
    state: InteractionState,
    mouse: MouseEvent,
    pane: SelectedPane,
    repeats: int,
    lines: Seq<ListLine>,
    layout: ProjectLayout,
)
    requires
        state.wf(),
        0 <= repeats,
    ensures
        ({
            let after = state.listed(mouse, pane, repeats, lines, layout).0;
            let under = process_under(layout.list, mouse.row, lines, layout.list_offset as int);
            let last = state.logs.len() - 1;
            &&& mouse.kind == MouseEventKind::Down(MouseButton::Left) ==> after.selected == (
            if under matches Some(index) && index < state.logs.len() {
                under->0
            } else {
                state.selected
            })
            &&& mouse.kind == MouseEventKind::ScrollUp ==> after.selected == (if repeats
                <= state.selected {
                state.selected - repeats
            } else {
                0
            })
            &&& mouse.kind == MouseEventKind::ScrollDown ==> after.selected == (if state.selected
                + repeats <= last {
                state.selected + repeats
            } else {
                last
            })
        }),
{
}

/// The line under a row of the list: the first two rows are its border and its
/// head, and the lines follow from the first that is shown.
pub proof fn list_rows_show_their_line(
    list: Rect,
    row: u16,
    lines: Seq<ListLine>,
    offset: int,
    index: int,
)
    requires
        0 <= offset,
    ensures
        process_under(list, row, lines, offset) == Some(index) ==> {
            &&& list.y + 2 <= row
            &&& row - list.y - 2 + offset < lines.len()
            &&& lines[row - list.y - 2 + offset] == ListLine::Process(index)
        },
{
}

/// A paste goes to a search that is typed, else to a focused terminal that
/// takes input, and else nowhere, with a warning.
pub proof fn pastes_go_where_the_focus_is(
    state: InteractionState,
    text: Seq<char>,
    pane: SelectedPane,
    input_focused: bool,
    output: RetainedOutput,
)
    ensures
        ({
            let (after, step) = state.pasted(text, pane, input_focused, output);
            let editing = state.log().search.editor is Some;
            let focused = state.console.view.mode == ConsoleViewMode::Console
                && state.console.view.pane == ConsolePaneKind::Terminal && input_focused;
            &&& step == StepView::DeliverPaste <==> !editing && focused && (
            pane matches SelectedPane::Terminal { live, .. } && live)
            &&& !editing && pane is Logs ==> after.console.view.warning == Some(
                ConsoleWarning::PasteRejected,
            )
            &&& !editing && pane is Terminal && !input_focused ==> after.console.view.warning
                == Some(ConsoleWarning::InputDisabled)
        }),
{
}

/// A focus change of the window goes to a live terminal that takes input.
pub proof fn focus_changes_are_passed_on(
    state: InteractionState,
    gained: bool,
    live: bool,
    mouse_tracking: bool,
    input_focused: bool,
)
    ensures
        ({
            let pane = SelectedPane::Terminal { live, mouse_tracking };
            let step = state.focused(gained, pane, input_focused).1;
            &&& step == StepView::DeliverFocus(gained) <==> live && input_focused
            &&& step != StepView::DeliverFocus(!gained)
        }),
        state.focused(gained, SelectedPane::Logs, input_focused) == (
            state,
            StepView::Done(InputResult::Ignored, None),
        ),
{
}

/// The window gains and loses the focus as it says, and a resize alone does
/// nothing.
pub proof fn window_events_are_told_apart(
    state: InteractionState,
    repeats: int,
    process: ProcessSnapshot,
    mouse_tracking: bool,
    output: RetainedOutput,
    rows: u16,
    lines: Seq<ListLine>,
    layout: ProjectLayout,
    width: u16,
    height: u16,
)
    requires
        process.input_focused,
    ensures
        ({
            let pane = SelectedPane::Terminal { live: true, mouse_tracking };
            let gained = state.routed(
                Event::FocusGained,
                repeats,
                pane,
                process,
                output,
                rows,
                lines,
                layout,
            );
            let lost = state.routed(
                Event::FocusLost,
                repeats,
                pane,
                process,
                output,
                rows,
                lines,
                layout,
            );
            let resized = state.routed(
                Event::Resize(width, height),
                repeats,
                pane,
                process,
                output,
                rows,
                lines,
                layout,
            );
            &&& gained == (state, StepView::DeliverFocus(true))
            &&& lost == (state, StepView::DeliverFocus(false))
            &&& resized == (state, StepView::Done(InputResult::Ignored, None))
        }),
{
}

/// The last notice of a terminal that warns decides the warning.
pub proof fn terminal_notices_warn(
    state: InteractionState,
    before: Seq<TerminalNotice>,
    notice: TerminalNotice,
)
    ensures
        ({
            let earlier = state.noticed(before).0;
            let after = state.noticed(before.push(notice)).0;
            after.console.view.warning == (match notice {
                TerminalNotice::Failed => Some(ConsoleWarning::InputRejected),
                TerminalNotice::InputBackpressure => Some(ConsoleWarning::InputBackpressure),
                TerminalNotice::OutputTruncated => Some(ConsoleWarning::OutputTruncated),
                _ => earlier.console.view.warning,
            })
        }),
{
    assert(before.push(notice).drop_last() =~= before);
}

} // verus!
