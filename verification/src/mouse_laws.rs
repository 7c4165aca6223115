//! What the pointer does to the Console, and what a paste and an update keep.

use vstd::prelude::*;

#[allow(unused_imports)]
use crate::console::{
    cell_distance, command_of, ConsolePaneKind, ConsoleState, ConsoleStep, ConsoleViewMode,
    write_warning, ConsoleWarning, MouseRoute, TerminalAction, TerminalScrollbar,
};
#[allow(unused_imports)]
use crate::input::{
    KeyCode, KeyEvent, KeyEventKind, MouseButton, MouseEvent, MouseEventKind, Rect,
};
#[allow(unused_imports)]
use crate::interaction::{
    InputResult, InteractionState, ProjectLayout, SelectedPane, StepView, TerminalNotice,
};
#[allow(unused_imports)]
use crate::log_laws::plainly_pressed;
#[allow(unused_imports)]
use crate::log_view::pasted;
#[allow(unused_imports)]
use crate::output::RetainedOutput;
#[allow(unused_imports)]
use crate::pipe_scroll::ScrollbarGesture;
#[allow(unused_imports)]
use crate::process_logs::LogsState;
#[allow(unused_imports)]
use crate::scrollbar::{dragged_position, drag_reaches_both_ends, less, thumb, ConsoleScrollbar};
#[allow(unused_imports)]
use crate::snapshot::{Lifecycle, ProcessSnapshot, ProjectSnapshot};
#[allow(unused_imports)]
use crate::text::{byte_len, byte_len_push, control_character};
#[allow(unused_imports)]
use crate::view_model::{profile_pending, ListLine};

verus! {

/// With the Process list focused over Logs, PageUp and PageDown move them by a
/// page less one line, `f` follows the tail, and `v` only warns, for Logs have
/// no Copy mode.
pub proof fn list_keys_steer_logs(state: ConsoleState, key: KeyEvent, logs: LogsState, rows: u16)
    requires
        plainly_pressed(key, key.code),
        state.view.mode == ConsoleViewMode::ProcessList,
    ensures
        ({
            let (next, moved, changed) = state.keyed_logs(key, logs, rows);
            let page = if rows > 2 {
                rows - 1
            } else {
                1
            };
            &&& key.code == KeyCode::PageUp ==> changed && moved.scroll == logs.scroll.queued(
                page,
                (-1) as isize,
            ) && !next.view.following
            &&& key.code == KeyCode::PageDown ==> changed && moved.scroll == logs.scroll.queued(
                page,
                1,
            ) && !next.view.following
            &&& key.code == KeyCode::Char('f') ==> changed && moved.scroll.follows()
                && next.view.following
            &&& key.code == KeyCode::Char('v') ==> changed && moved == logs && next.view.mode
                == state.view.mode && next.view.warning == Some(
                ConsoleWarning::SelectionUnavailable,
            )
        }),
{
}

/// A press in the same cell or beside it within half a second of the last one
/// enters Copy mode, and so does a drag; a single press does not. Copy mode
/// leads back to where it was entered from.
pub proof fn a_second_press_enters_copy_mode(
    state: ConsoleState,
    mouse: MouseEvent,
    again: MouseEvent,
    gesture: bool,
    route: MouseRoute,
    first: u64,
    second: u64,
)
    requires
        route.stackhand_owned,
        state.view.mode != ConsoleViewMode::Copy,
        state.last_press is None,
        mouse.kind == MouseEventKind::Down(MouseButton::Left),
        again.kind == MouseEventKind::Down(MouseButton::Left),
        first <= second,
    ensures
        ({
            let pressed = state.pointed(mouse, gesture, Some(route), first).0;
            let twice = pressed.pointed(again, gesture, Some(route), second).0;
            let near = cell_distance(mouse.column, again.column) + cell_distance(
                mouse.row,
                again.row,
            ) <= 1 && second - first <= 500_000_000;
            &&& pressed.view.mode == state.view.mode
            &&& near ==> twice.view.mode == ConsoleViewMode::Copy && twice.return_mode
                == state.view.mode && twice.returned().view.mode == state.view.mode
            &&& !near ==> twice.view.mode == state.view.mode
        }),
        forall|drag: MouseEvent| #[trigger]
            state.pointed(drag, gesture, Some(route), first).0.view.mode == ConsoleViewMode::Copy
                <==> drag.kind == MouseEventKind::Drag(MouseButton::Left),
        !gesture ==> !state.pointed(mouse, gesture, None, first).0.mouse_gesture,
{
}

/// Two cells are as far apart as one must move from one to the other.
pub proof fn cells_are_apart_both_ways(a: u16, b: u16)
    ensures
        cell_distance(a, b) == cell_distance(b, a),
        cell_distance(a, b) == 0 <==> a == b,
        a + cell_distance(a, b) == b || b + cell_distance(a, b) == a,
        cell_distance(a, b) >= 0,
{
}

/// The thumb of a terminal moves it: at the top of the track it shows the
/// first row and at the bottom the last one, which it then follows.
pub proof fn the_thumb_moves_the_terminal(
    state: ConsoleState,
    bar: TerminalScrollbar,
    drawn: ConsoleScrollbar,
    track_rows: int,
    start: int,
)
    requires
        0 < track_rows,
        bar.len < bar.total,
        drawn.content_length == bar.total - bar.len + 1,
        thumb(drawn, track_rows).1 < track_rows,
        start >= track_rows - thumb(drawn, track_rows).1,
    ensures
        ({
            let (top, first) = state.thumbed(bar, drawn, track_rows, 0);
            let (bottom, last) = state.thumbed(bar, drawn, track_rows, start);
            &&& first == 0
            &&& !top.view.following
            &&& last == bar.total - bar.len
            &&& bottom.view.following
            &&& bottom.view.mode == state.view.mode
        }),
{
    drag_reaches_both_ends(drawn, track_rows, start);
}

/// A press on the thumb holds it without moving the terminal, one beside it
/// moves the terminal, and a release lets go.
pub proof fn the_scrollbar_is_held_until_release(
    state: ConsoleState,
    mouse: MouseEvent,
    area: Rect,
    bar: TerminalScrollbar,
    drawn: ConsoleScrollbar,
)
    requires
        state.scrollbar_gesture is None,
        area.width > 1,
        area.height > 0,
        area.x + area.width <= u16::MAX,
        area.y + area.height <= u16::MAX,
        mouse.kind == MouseEventKind::Down(MouseButton::Left),
        mouse.column == area.x + area.width - 1,
        area.y <= mouse.row < area.y + area.height,
    ensures
        ({
            let (next, step) = state.scrollbar_pointed(mouse, area, bar, Some(drawn));
            let row = mouse.row - area.y;
            let (start, length) = thumb(drawn, area.height as int);
            let on_thumb = start <= row < start + length;
            &&& on_thumb ==> step == ConsoleStep::Changed(None) && next.scrollbar_gesture == Some(
                ScrollbarGesture::Thumb { grab_row: (row - start) as usize },
            )
            &&& !on_thumb ==> next.scrollbar_gesture == Some(ScrollbarGesture::Track) && (step
                matches ConsoleStep::Changed(Some(TerminalAction::ScrollToRow(_))))
            &&& next.view.mode != ConsoleViewMode::ProcessList
            &&& forall|up: MouseEvent|
                up.kind == MouseEventKind::Up(MouseButton::Left) ==> (#[trigger] next.scrollbar_pointed(
                    up,
                    area,
                    bar,
                    Some(drawn),
                )).0.scrollbar_gesture is None
        }),
        forall|other: MouseEvent|
            other.kind == mouse.kind && other.column < mouse.column ==> (
            #[trigger] state.scrollbar_pointed(other, area, bar, Some(drawn))) == (
                state,
                ConsoleStep::Ignored,
            ),
{
}

/// A delivery that was refused warns, and one that was taken clears the
/// warning.
pub proof fn refused_input_warns(state: ConsoleState)
    ensures
        state.delivered(false).0.view.warning == Some(ConsoleWarning::InputRejected),
        state.delivered(false).1,
        state.delivered(true).0.view.warning is None,
        state.delivered(true).1 <==> state.view.warning is Some,
        forall|accepted: bool| (#[trigger] state.delivered(accepted)).0.view.mode == state.view.mode,
        forall|selects: bool| (#[trigger] state.mouse_delivered(false, selects)).1 is None,
        state.view.warning is None ==> state.mouse_delivered(true, true).1 == Some(
            TerminalAction::StartKeyboardSelection,
        ) && state.mouse_delivered(true, false).1 is None,
{
}

/// A paste that fits is appended to the query whole.
pub proof fn fitting_pastes_are_searched_whole(query: Seq<char>, text: Seq<char>, from: int)
    requires
        0 <= from <= text.len(),
        byte_len(query + text.skip(from)) <= 256,
        forall|i: int| 0 <= i < text.len() ==> !control_character(#[trigger] text[i]),
    ensures
        pasted(query, text, from) == query + text.skip(from),
    decreases text.len() - from,
{
    if from == text.len() {
        assert(query + text.skip(from) =~= query);
    } else {
        let longer = query.push(text[from]);
        assert(longer + text.skip(from + 1) =~= query + text.skip(from));
        byte_len_push(query, text[from]);
        a_prefix_is_no_longer(longer, text.skip(from + 1));
        fitting_pastes_are_searched_whole(longer, text, from + 1);
    }
}

proof fn a_prefix_is_no_longer(prefix: Seq<char>, rest: Seq<char>)
    ensures
        byte_len(prefix) <= byte_len(prefix + rest),
    decreases rest.len(),
{
    if rest.len() == 0 {
        assert(prefix + rest =~= prefix);
    } else {
        a_prefix_is_no_longer(prefix, rest.drop_last());
        assert((prefix + rest).drop_last() =~= prefix + rest.drop_last());
    }
}

/// A paste only adds to the query, adds no control character, and adds nothing
/// that the text does not hold.
pub proof fn pastes_only_add(query: Seq<char>, text: Seq<char>, from: int)
    requires
        0 <= from <= text.len(),
    ensures
        ({
            let longer = pasted(query, text, from);
            &&& query.is_prefix_of(longer)
            &&& forall|i: int|
                query.len() <= i < longer.len() ==> !control_character(#[trigger] longer[i])
                    && text.contains(longer[i])
            &&& byte_len(query) <= 256 ==> byte_len(longer) <= 256
        }),
    decreases text.len() - from,
{
    if from < text.len() {
        if control_character(text[from]) {
            pastes_only_add(query, text, from + 1);
        } else {
            let next = query.push(text[from]);
            byte_len_push(query, text[from]);
            pastes_only_add(next, text, from + 1);
            let longer = pasted(query, text, from);
            if longer != query {
                assert(next.is_prefix_of(longer));
                assert(longer[query.len() as int] == next[query.len() as int]);
                assert(query =~= longer.take(query.len() as int));
                assert forall|i: int| query.len() <= i < longer.len() implies !control_character(
                    #[trigger] longer[i],
                ) && text.contains(longer[i]) by {
                    if i == query.len() {
                        assert(text.contains(text[from]));
                    }
                }
            }
        }
    }
}

/// An update keeps the Logs of every Process that stays, gives a new one fresh
/// Logs, and takes over what waits in the snapshot.
pub proof fn updates_keep_the_logs(state: InteractionState, snapshot: ProjectSnapshot, at: int)
    requires
        0 <= at < snapshot.processes@.len(),
    ensures
        ({
            let next = state.updated(snapshot).0;
            &&& next.logs.len() == snapshot.processes@.len()
            &&& at < state.logs.len() ==> next.logs[at] == state.logs[at]
            &&& at >= state.logs.len() ==> next.logs[at] == LogsState::fresh()
            &&& next.console.view.mode == state.console.view.mode
            &&& next.commands.len() == 0
            &&& next.start_anyway <==> snapshot.processes@[next.selected].lifecycle
                == Lifecycle::Waiting
            &&& profile_pending(snapshot.processes@[at]) ==> next.profile_pending
            &&& next.profile_pending ==> exists|i: int|
                0 <= i < snapshot.processes@.len() && profile_pending(
                    #[trigger] snapshot.processes@[i],
                )
        }),
{
}

/// A press focuses the pane it lands on: the Console, or the Process list
/// where there is anything to leave.
pub proof fn presses_focus_their_pane(
    state: InteractionState,
    mouse: MouseEvent,
    repeats: int,
    output: RetainedOutput,
    lines: Seq<ListLine>,
    layout: ProjectLayout,
)
    requires
        state.wf(),
        mouse.kind is Down,
        state.log().scroll.gesture is None,
    ensures
        ({
            let next = state.pointed(
                mouse,
                SelectedPane::Logs,
                repeats,
                output,
                lines,
                layout,
            ).0;
            let on_list = layout.list.holds(mouse.column, mouse.row);
            let on_console = layout.console.holds(mouse.column, mouse.row);
            &&& on_list ==> next.console.view.mode == ConsoleViewMode::ProcessList
            &&& !on_list && on_console && state.console.view.mode == ConsoleViewMode::ProcessList
                ==> next.console.view.mode == ConsoleViewMode::Console
            &&& !on_list && on_console ==> next.selected == state.selected
            &&& !on_list && !on_console ==> next == state
        }),
{
}

/// The Console tells of Logs whether they follow the tail and whether a search
/// or a selection is there, and of a Project whether a Profile waits.
pub proof fn the_console_tells_of_its_logs(state: InteractionState)
    ensures
        ({
            let view = state.view_of(SelectedPane::Logs);
            &&& view.following <==> state.log().scroll.follows()
            &&& view.search_editing <==> state.log().search.editor is Some
            &&& view.search_active <==> state.log().search.active_query().len() > 0
            &&& state.log().scroll.selection is None ==> !view.logs_selection
            &&& state.log().scroll.selection matches Some(selection) ==> (view.logs_selection
                <==> selection.anchor != selection.cursor)
            &&& view.profile_changes_pending <==> state.profile_pending
            &&& view.start_anyway_available <==> state.start_anyway
            &&& view.mode == state.console.view.mode
            &&& view.warning == state.console.view.warning
        }),
{
}

/// A terminal that is shown takes the place of Logs, forgets what they had cut
/// off, and keeps the rest.
pub proof fn a_terminal_takes_the_pane(state: InteractionState, notices: Seq<TerminalNotice>)
    ensures
        ({
            let (next, changed) = state.on_terminal(notices);
            &&& next.console.view.pane == ConsolePaneKind::Terminal
            &&& next.truncation is None
            &&& next.selected == state.selected
            &&& next.logs == state.logs
            &&& next.console.view.mode == state.console.view.mode
            &&& notices.len() == 0 ==> !changed
        }),
{
    notices_only_warn(InteractionState { truncation: None, ..state }, notices);
}

proof fn notices_only_warn(state: InteractionState, notices: Seq<TerminalNotice>)
    ensures
        ({
            let next = state.noticed(notices).0;
            &&& next.truncation == state.truncation
            &&& next.selected == state.selected
            &&& next.logs == state.logs
            &&& next.console.view.mode == state.console.view.mode
        }),
    decreases notices.len(),
{
    if notices.len() > 0 {
        notices_only_warn(state, notices.drop_last());
    }
}

/// A copy warns where the clipboard refused it, and not where it took it.
pub proof fn only_refused_copies_warn(written: Result<(), String>)
    ensures
        write_warning(written) is None <==> written is Ok,
        written is Err ==> write_warning(written) == Some(ConsoleWarning::ClipboardFailed),
{
}

/// A warning about the pane goes with the pane: another pane drops it, the same
/// one keeps it, and other warnings stay in any case.
pub proof fn pane_warnings_go_with_the_pane(state: ConsoleState, pane: ConsolePaneKind)
    ensures
        ({
            let shown = state.showing(pane).view.warning;
            let of_pane = state.view.warning == Some(ConsoleWarning::InputDisabled)
                || state.view.warning == Some(ConsoleWarning::LogsCommandOnly)
                || state.view.warning == Some(ConsoleWarning::SelectionUnavailable)
                || state.view.warning == Some(ConsoleWarning::PasteRejected);
            &&& state.view.pane != pane && of_pane ==> shown is None
            &&& state.view.pane == pane || !of_pane ==> shown == state.view.warning
            &&& state.showing(pane).view.pane == pane
            &&& state.showing(pane).view.mode == state.view.mode
        }),
{
}

} // verus!
