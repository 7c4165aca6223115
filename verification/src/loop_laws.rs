//! What holds of the input on its way through the queue and the event loop.

use vstd::prelude::*;

#[allow(unused_imports)]
use crate::event_loop::{
    command_of, commands_of, finishes, representation_part, shows_news, shutdown_part,
    status_part,
};
#[allow(unused_imports)]
use crate::geometry::TerminalGeometry;
#[allow(unused_imports)]
use crate::input::{Event, MouseEvent, MouseEventKind, Rect};
#[allow(unused_imports)]
use crate::input_batch::{run_length, surface_of, ReadyEvent, WheelSurface};
#[allow(unused_imports)]
use crate::input_queue::{first_lossy, lossy, offered, Action, PushOutcome};
#[allow(unused_imports)]
use crate::interaction::{CommandRequest, InputResult};
#[allow(unused_imports)]
use crate::lifecycle::{requested, LifecycleCommand};
#[allow(unused_imports)]
use crate::log_view::OutputRepresentation;
#[allow(unused_imports)]
use crate::resize::{settling, taken};
#[allow(unused_imports)]
use crate::scrollbar::{
    capped, dragged_position, less, rounded_part, smaller, thumb, thumb_lies_on_its_track,
    ConsoleScrollbar,
};
#[allow(unused_imports)]
use crate::snapshot::{named_from, process_alike, ProcessSnapshot, ProjectSnapshot};

verus! {

/// Only turns of the wheel and movements of the pointer may be dropped: keys,
/// clicks, drags, pastes, focus changes and resizes may not.
pub proof fn only_wheel_and_motion_are_lossy(event: Event)
    ensures
        lossy(event) <==> (event matches Event::Mouse(mouse) && (mouse.kind is Moved
            || mouse.kind is ScrollUp || mouse.kind is ScrollDown || mouse.kind is ScrollLeft
            || mouse.kind is ScrollRight)),
{
}

/// A turn of the wheel that comes again is counted with the entry it repeats.
pub proof fn repeated_turns_add_up(
    actions: Seq<Action>,
    mouse: MouseEvent,
    times: usize,
    stopping: bool,
)
    requires
        mouse.kind is ScrollUp || mouse.kind is ScrollDown || mouse.kind is ScrollLeft
            || mouse.kind is ScrollRight,
        times < usize::MAX,
    ensures
        offered(actions.push((Event::Mouse(mouse), times)), Event::Mouse(mouse), stopping).0
            == actions.push((Event::Mouse(mouse), (times + 1) as usize)),
{
    assert(actions.push((Event::Mouse(mouse), times)).drop_last() =~= actions);
}

/// Of two movements of the pointer in a row, the later one is left.
pub proof fn the_last_pointer_position_counts(
    actions: Seq<Action>,
    before: MouseEvent,
    after: MouseEvent,
    times: usize,
    stopping: bool,
)
    requires
        before.kind is Moved,
        after.kind is Moved,
    ensures
        offered(actions.push((Event::Mouse(before), times)), Event::Mouse(after), stopping).0
            == actions.push((Event::Mouse(after), 1)),
{
    assert(actions.push((Event::Mouse(before), times)).drop_last() =~= actions);
}

/// Input that may not be dropped comes last and stands for itself, while there
/// is room, also where it repeats what came before.
pub proof fn other_input_is_queued_last(actions: Seq<Action>, event: Event, stopping: bool)
    requires
        actions.len() < 256,
        !lossy(event),
    ensures
        offered(actions, event, stopping) == (actions.push((event, 1)), PushOutcome::Queued),
{
}

proof fn nothing_lossy_is_found(actions: Seq<Action>, from: int)
    requires
        0 <= from,
        forall|i: int| 0 <= i < actions.len() ==> !lossy((#[trigger] actions[i]).0),
    ensures
        first_lossy(actions, from) is None,
    decreases actions.len() - from,
{
    if from < actions.len() {
        assert(!lossy(actions[from].0));
        nothing_lossy_is_found(actions, from + 1);
    }
}

/// A full queue of input that may not be dropped does not change: what may be
/// dropped is, and what may not has to wait, unless the queue is stopping.
pub proof fn a_full_queue_does_not_change(actions: Seq<Action>, event: Event, stopping: bool)
    requires
        actions.len() == 256,
        forall|i: int| 0 <= i < actions.len() ==> !lossy((#[trigger] actions[i]).0),
    ensures
        ({
            let (next, outcome) = offered(actions, event, stopping);
            &&& next == actions
            &&& outcome == (if lossy(event) || stopping {
                PushOutcome::Discarded
            } else {
                PushOutcome::Wait(event)
            })
        }),
{
    nothing_lossy_is_found(actions, 0);
    assert(!lossy(actions.last().0));
}

/// A rectangle holds the cells from its corner on, as many as its width and
/// height say, and the row nearest to a cell counts from its top.
pub proof fn rectangles_hold_their_cells(area: Rect, column: u16, row: u16)
    requires
        area.x + area.width <= u16::MAX,
        area.y + area.height <= u16::MAX,
    ensures
        area.holds(column, row) <==> area.x <= column < area.x + area.width && area.y <= row
            < area.y + area.height,
        area.y <= row < area.y + area.height ==> area.nearest_row(row) == row - area.y,
        row < area.y ==> area.nearest_row(row) == 0,
        area.height > 0 && row >= area.y + area.height ==> area.nearest_row(row) == area.height
            - 1,
{
}

/// A turn of the wheel belongs to the pane under the pointer; a Console that
/// does not own the wheel leaves it to its terminal.
pub proof fn the_wheel_belongs_to_its_pane(
    mouse: MouseEvent,
    list_area: Rect,
    console_area: Rect,
    owned: bool,
)
    requires
        mouse.kind is ScrollUp || mouse.kind is ScrollDown,
    ensures
        ({
            let surface = surface_of(Event::Mouse(mouse), list_area, console_area, owned);
            let on_list = list_area.holds(mouse.column, mouse.row);
            let on_console = console_area.holds(mouse.column, mouse.row);
            &&& surface == Some(WheelSurface::ProcessList) <==> on_list
            &&& surface == Some(WheelSurface::Console) <==> on_console && owned && !on_list
        }),
        surface_of(Event::FocusGained, list_area, console_area, owned) is None,
{
}

/// What a batch takes are the ready events of one surface in a row: each of
/// them belongs to it, and the one behind them, where there is room, does not.
pub proof fn a_batch_takes_one_surface(
    ready: Seq<ReadyEvent>,
    list_area: Rect,
    console_area: Rect,
    surface: WheelSurface,
    from: int,
    room: int,
)
    requires
        0 <= from <= ready.len(),
        0 <= room,
    ensures
        ({
            let run = run_length(ready, list_area, console_area, surface, from, room);
            &&& 0 <= run <= room
            &&& from + run <= ready.len()
            &&& forall|i: int|
                from <= i < from + run ==> surface_of(
                    (#[trigger] ready[i]).0,
                    list_area,
                    console_area,
                    ready[i].1,
                ) == Some(surface)
            &&& run < room && from + run < ready.len() ==> surface_of(
                ready[from + run].0,
                list_area,
                console_area,
                ready[from + run].1,
            ) != Some(surface)
        }),
    decreases room,
{
    if room > 0 && from < ready.len() {
        a_batch_takes_one_surface(
            ready,
            list_area,
            console_area,
            surface,
            from + 1,
            room - 1,
        );
    }
}

/// A new size is used once it has stood for sixteen milliseconds, and then
/// once.
pub proof fn sizes_are_used_when_settled(geometry: TerminalGeometry, seen: u64, now: u64)
    requires
        seen + 16_000_000 <= u64::MAX,
    ensures
        now < seen + 16_000_000 ==> taken(settling(geometry, seen), now) == (
            None::<TerminalGeometry>,
            settling(geometry, seen),
        ),
        now >= seen + 16_000_000 ==> taken(settling(geometry, seen), now) == (
            Some(geometry),
            None::<(TerminalGeometry, u64)>,
        ),
        taken(None, now) == (None::<TerminalGeometry>, None::<(TerminalGeometry, u64)>),
{
}

/// The first quit asks for a shutdown, with twenty seconds to finish, and
/// nothing else does.
pub proof fn the_first_quit_shuts_down(results: Seq<InputResult>, at: int)
    requires
        0 <= at < results.len(),
        results[at] == InputResult::Quit,
        forall|i: int| 0 <= i < at ==> #[trigger] results[i] != InputResult::Quit,
    ensures
        commands_of(false, results) == seq![CommandRequest::Shutdown(20_000_000_000)],
        commands_of(false, results.take(at)).len() == 0,
    decreases at,
{
    let rest = results.drop_first();
    if at == 0 {
        crate::event_loop::one_shutdown_per_project(true, rest);
        assert(commands_of(true, rest) =~= Seq::<CommandRequest>::empty());
    } else {
        assert forall|i: int| 0 <= i < at - 1 implies #[trigger] rest[i] != InputResult::Quit by {
            assert(rest[i] == results[i + 1]);
        }
        assert(results[0] != InputResult::Quit);
        the_first_quit_shuts_down(rest, at - 1);
        assert(results.take(at).drop_first() =~= rest.take(at - 1));
        assert(results.take(at)[0] == results[0]);
    }
}

/// The loop ends once a shutdown that was asked for is complete, not before.
pub proof fn the_loop_ends_with_the_shutdown(shutting_down: bool, snapshot: ProjectSnapshot)
    ensures
        !shutting_down ==> !finishes(shutting_down, snapshot),
        snapshot.shutdown is None ==> !finishes(shutting_down, snapshot),
        snapshot.shutdown matches Some(shutdown) ==> (shutting_down ==> (finishes(
            shutting_down,
            snapshot,
        ) <==> shutdown.complete)),
{
}

/// A snapshot is news where a second has passed, where a Process came or went,
/// and where the name, the state, the Run or the wish of one has changed; the
/// same Processes in the same second are none.
pub proof fn changes_are_news(
    processes: Seq<ProcessSnapshot>,
    second: u64,
    snapshot: ProjectSnapshot,
    at: int,
)
    ensures
        shows_news(None, snapshot),
        second != snapshot.now_ms / 1000 ==> shows_news(Some((processes, second)), snapshot),
        processes.len() != snapshot.processes@.len() ==> shows_news(
            Some((processes, second)),
            snapshot,
        ),
        0 <= at < processes.len() && at < snapshot.processes@.len() && (processes[at].name@
            != snapshot.processes@[at].name@ || processes[at].lifecycle
            != snapshot.processes@[at].lifecycle || processes[at].current_run
            != snapshot.processes@[at].current_run || processes[at].desired
            != snapshot.processes@[at].desired || processes[at].root_pid
            != snapshot.processes@[at].root_pid) ==> shows_news(
            Some((processes, second)),
            snapshot,
        ),
        processes == snapshot.processes@ && second == snapshot.now_ms / 1000 ==> !shows_news(
            Some((processes, second)),
            snapshot,
        ),
{
    if 0 <= at < processes.len() && at < snapshot.processes@.len() {
        if process_alike(processes[at], snapshot.processes@[at]) {
            assert(processes[at].name@ == snapshot.processes@[at].name@);
        }
    }
}

proof fn the_first_of_a_name(
    processes: Seq<ProcessSnapshot>,
    name: Seq<char>,
    place: int,
    from: int,
)
    requires
        0 <= from <= place <= processes.len(),
        place < processes.len() ==> processes[place].name@ == name,
        forall|i: int| from <= i < place ==> (#[trigger] processes[i]).name@ != name,
    ensures
        named_from(processes, name, from) == (if place < processes.len() {
            Some(place)
        } else {
            None
        }),
    decreases place - from,
{
    if from < place {
        assert(processes[from].name@ != name);
        the_first_of_a_name(processes, name, place, from + 1);
    }
}

/// A Process is found by its name, and a name that no Process has finds none.
pub proof fn processes_are_found_by_name(
    snapshot: ProjectSnapshot,
    name: Seq<char>,
    place: int,
)
    requires
        0 <= place <= snapshot.processes@.len(),
        place < snapshot.processes@.len() ==> snapshot.processes@[place].name@ == name,
        forall|i: int|
            0 <= i < place ==> (#[trigger] snapshot.processes@[i]).name@ != name,
    ensures
        snapshot.find(name) == (if place < snapshot.processes@.len() {
            Some(snapshot.processes@[place])
        } else {
            None
        }),
{
    the_first_of_a_name(snapshot.processes@, name, place, 0);
}

/// The letters that start, stop and restart, and no others.
pub proof fn lifecycle_letters_are_as_listed(character: char)
    ensures
        requested(character) == Some(LifecycleCommand::Start) <==> character == 's',
        requested(character) == Some(LifecycleCommand::Stop) <==> character == 'x',
        requested(character) == Some(LifecycleCommand::Restart) <==> character == 'r',
{
}

proof fn nearest(value: int, target: int, source: int)
    requires
        0 <= value,
        0 <= target,
        source > 0,
    ensures
        ({
            let part = rounded_part(value, target, source);
            &&& 2 * (part * source) <= 2 * (value * target) + source
            &&& 2 * (value * target) <= 2 * (part * source) + source
        }),
{
    let whole = value * target + source / 2;
    let part = whole / source;
    assert(part * source <= whole < part * source + source) by (nonlinear_arith)
        requires
            part == whole / source,
            source > 0,
    ;
}

/// The thumb covers as much of its track as the pane does of the output and
/// begins where the pane does, to the nearest row; it is never shorter than a
/// row and never leaves the track.
pub proof fn the_thumb_shows_the_share(scrollbar: ConsoleScrollbar, track_rows: int)
    requires
        0 < track_rows,
        scrollbar.position < scrollbar.content_length,
        0 < scrollbar.viewport_length,
        scrollbar.content_length - 1 + scrollbar.viewport_length <= usize::MAX,
    ensures
        ({
            let (start, length) = thumb(scrollbar, track_rows);
            let total = scrollbar.content_length - 1 + scrollbar.viewport_length;
            let share = scrollbar.viewport_length * track_rows;
            let above = scrollbar.position * track_rows;
            &&& length == 1 || 2 * (length * total) <= 2 * share + total
            &&& length == track_rows || 2 * share <= 2 * (length * total) + total
            &&& 2 * (start * total) <= 2 * above + total
            &&& start + length == track_rows || 2 * above <= 2 * (start * total) + total
        }),
{
    let total = scrollbar.content_length - 1 + scrollbar.viewport_length;
    let (start, length) = thumb(scrollbar, track_rows);
    nearest(scrollbar.viewport_length as int, track_rows, total);
    nearest(scrollbar.position as int, track_rows, total);
    let rounded = rounded_part(scrollbar.viewport_length as int, track_rows, total);
    let begun = rounded_part(scrollbar.position as int, track_rows, total);
    assert(length <= rounded || length == 1);
    assert(rounded < 1 ==> rounded * total <= 0) by (nonlinear_arith)
        requires
            total > 0,
    ;
    assert(length * total >= total) by (nonlinear_arith)
        requires
            length >= 1,
            total > 0,
    ;
    assert(length <= rounded ==> length * total <= rounded * total) by (nonlinear_arith)
        requires
            total > 0,
    ;
    assert(start * total <= begun * total) by (nonlinear_arith)
        requires
            start <= begun,
            total > 0,
    ;
}

/// Dragging the thumb a share of its way shows the line that lies the same
/// share of the way down.
pub proof fn a_drag_goes_its_share(
    scrollbar: ConsoleScrollbar,
    track_rows: int,
    thumb_start: int,
)
    requires
        0 < track_rows,
        0 < scrollbar.content_length,
        thumb(scrollbar, track_rows).1 < track_rows,
        0 <= thumb_start <= track_rows - thumb(scrollbar, track_rows).1,
    ensures
        ({
            let way = track_rows - thumb(scrollbar, track_rows).1;
            let position = dragged_position(scrollbar, track_rows, thumb_start);
            &&& position * way <= thumb_start * (scrollbar.content_length - 1)
            &&& thumb_start * (scrollbar.content_length - 1) < position * way + way
        }),
{
    let way = track_rows - thumb(scrollbar, track_rows).1;
    let whole = thumb_start * (scrollbar.content_length - 1);
    let position = whole / way;
    assert(position * way <= whole < position * way + way) by (nonlinear_arith)
        requires
            position == whole / way,
            way > 0,
    ;
}

/// The header of a Console says which kind of output it shows and ends with
/// the status, where there is one; a shutdown comes before everything else.
pub proof fn headers_say_what_is_shown(
    header: Seq<char>,
    representation: OutputRepresentation,
    status: Option<Seq<char>>,
    shutting_down: bool,
)
    ensures
        ({
            let shown = shutdown_part(shutting_down) + representation_part(representation) + header
                + status_part(status);
            let kind = if representation is Terminal {
                "Terminal · "@
            } else {
                "Logs · "@
            };
            let ending = match status {
                Some(status) => " · "@ + status,
                None => Seq::empty(),
            };
            shown == (if shutting_down {
                "Project shutdown in progress · "@ + kind + header + ending
            } else {
                kind + header + ending
            })
        }),
{
    reveal_strlit("");
    assert(""@ =~= Seq::<char>::empty());
    assert(Seq::<char>::empty() + representation_part(representation) =~= representation_part(
        representation,
    ));
}

} // verus!
