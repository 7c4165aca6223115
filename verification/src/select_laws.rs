//! What a selection copies, and what the pointer does to it.

use vstd::prelude::*;

#[allow(unused_imports)]
use crate::columns::{byte_for_column, cells, columns_are_characters};
#[allow(unused_imports)]
use crate::input::{MouseButton, MouseEvent, MouseEventKind, Rect};
#[allow(unused_imports)]
use crate::output::{
    lines_from, place_is_unique, place_of, retained_lines, source_before, LogMatch, PipeLine,
    RetainedOutput,
};
#[allow(unused_imports)]
use crate::pipe_scroll::{
    marked, marked_lines, selected_parts, LogSelection, ScrollState, SelectionPoint,
};
#[allow(unused_imports)]
use crate::log_view::LogViewAction;
#[allow(unused_imports)]
use crate::process_logs::{highlighted, line_texts, line_with_source, LogsEffect, LogsState};
#[allow(unused_imports)]
use crate::scrollbar::{dragged_position, ConsoleScrollbar};
#[allow(unused_imports)]
use crate::scroll_laws::{moves_are_by_lines, settled, shown_from};
#[allow(unused_imports)]
use crate::text::{byte_len, byte_start_monotone, bytes_hold_their_characters, joined};

verus! {

/// Whether a point stands before a character of a line.
pub open spec fn stands_before(point: SelectionPoint, line: PipeLine, index: int) -> bool {
    &&& line.source == Some(point.source)
    &&& 0 <= index <= line.text@.len()
    &&& point.byte == byte_len(line.text@.take(index))
}

/// The part of each line between a character of the first line and one of the
/// last.
pub open spec fn parts_between(lines: Seq<PipeLine>, first: int, from: int, last: int, to: int) -> Seq<
    Seq<char>,
> {
    Seq::new(
        (last - first + 1) as nat,
        |k: int|
            {
                let text = lines[first + k].text@;
                let start = if k == 0 {
                    from
                } else {
                    0
                };
                let end = if first + k == last {
                    to
                } else {
                    text.len() as int
                };
                text.subrange(start, end)
            },
    )
}

/// A selection copies what lies between its ends: from the earlier end to the
/// end of that line, the whole lines in between, and the last line up to the
/// later end. It does not matter which of the ends was put first.
pub proof fn selections_copy_what_lies_between(
    state: ScrollState,
    lines: Seq<PipeLine>,
    truncated: bool,
    first: int,
    from: int,
    last: int,
    to: int,
    start: SelectionPoint,
    end: SelectionPoint,
)
    requires
        retained_lines(lines, truncated),
        0 <= first <= last < lines.len(),
        first == last ==> from < to,
        stands_before(start, lines[first], from),
        stands_before(end, lines[last], to),
        state.selection matches Some(selection) && (selection.anchor == start && selection.cursor
            == end || selection.anchor == end && selection.cursor == start),
    ensures
        state.selected(lines) == Some(
            joined(parts_between(lines, first, from, last, to), "\n"@),
        ),
        first == last ==> state.selected(lines) == Some(lines[first].text@.subrange(from, to)),
        first + 1 == last ==> state.selected(lines) == Some(
            lines[first].text@.skip(from) + seq!['\n'] + lines[last].text@.take(to),
        ),
{
    reveal_strlit("\n");
    let selection = state.selection->0;
    place_is_unique(lines, truncated, first);
    place_is_unique(lines, truncated, last);
    if first == last {
        byte_start_monotone(lines[first].text@, from, to);
    } else {
        assert(source_before(lines[first].source->0, lines[last].source->0));
    }
    assert(selection.ends() == (start, end));
    let window = lines.subrange(first, last + 1);
    let parts = selected_parts(window, start, end);
    let wanted = parts_between(lines, first, from, last, to);
    assert forall|k: int| 0 <= k < parts.len() implies parts[k] == wanted[k] by {
        let line = lines[first + k];
        let text = line.text@;
        assert(window[k] == line);
        if 0 < k {
            assert(source_before(lines[first].source->0, lines[first + k].source->0));
        }
        if first + k < last {
            assert(source_before(lines[first + k].source->0, lines[last].source->0));
        }
        let left = if k == 0 {
            from
        } else {
            0
        };
        let right = if first + k == last {
            to
        } else {
            text.len() as int
        };
        assert(text.take(0) =~= Seq::<char>::empty());
        assert(text.take(text.len() as int) =~= text);
        byte_start_monotone(text, left, left);
        byte_start_monotone(text, right, right);
        bytes_hold_their_characters(text, left, right);
    }
    assert(parts =~= wanted);
    reveal_with_fuel(joined, 2);
    if first + 1 == last {
        assert(wanted.drop_last() =~= seq![lines[first].text@.skip(from)]);
        assert(wanted.last() =~= lines[last].text@.take(to));
        assert("\n"@ =~= seq!['\n']);
    }
}

/// Whether the characters of a line take one column each, and its bytes can be
/// counted.
pub open spec fn plainly_wide(line: PipeLine) -> bool {
    &&& byte_len(line.text@) <= usize::MAX
    &&& forall|i: int| 0 <= i < line.text@.len() ==> cells(#[trigger] line.text@[i]) == 1
}

/// A press and a release select from the character under the press to the
/// character under the release, that one included, or to the end of a line
/// that is too short.
pub proof fn a_drag_selects_from_press_to_release(
    state: ScrollState,
    row: int,
    column: int,
    last_row: int,
    last_column: int,
)
    requires
        0 <= row < state.visible.len() <= usize::MAX,
        0 <= last_row < state.visible.len(),
        0 <= column <= usize::MAX,
        0 <= last_column <= usize::MAX,
        state.visible[row].source is Some,
        state.visible[last_row].source is Some,
        plainly_wide(state.visible[row]),
        plainly_wide(state.visible[last_row]),
        column < state.visible[row].text@.len(),
        row < last_row || (row == last_row && column <= last_column),
        state.visible[row].source != state.visible[last_row].source || row == last_row,
    ensures
        ({
            let pressed = state.selecting(row, column).0;
            let done = pressed.finishing(last_row, last_column).0;
            let last = state.visible[last_row];
            &&& done.selection is Some
            &&& !done.selection->0.dragging
            &&& stands_before(done.selection->0.anchor, state.visible[row], column)
            &&& stands_before(
                done.selection->0.cursor,
                last,
                if last_column < last.text@.len() {
                    last_column + 1
                } else {
                    last.text@.len() as int
                },
            )
        }),
{
    let line = state.visible[row];
    let last = state.visible[last_row];
    columns_are_characters(line.text@, column);
    columns_are_characters(last.text@, last_column);
    byte_start_monotone(line.text@, column, column);
    let reached = if last_column < last.text@.len() {
        last_column + 1
    } else {
        last.text@.len() as int
    };
    byte_start_monotone(last.text@, reached, reached);
    assert(last.text@.take(last.text@.len() as int) =~= last.text@);
    if row == last_row {
        byte_start_monotone(last.text@, column, reached);
    }
    let pressed = state.selecting(row, column).0;
    assert(pressed.visible[last_row].text == last.text);
    assert(pressed.visible[last_row].source == last.source);
}

/// One step of the wheel moves three lines, up or down, as far as the retained
/// lines reach.
pub proof fn the_wheel_moves_three_lines(
    state: LogsState,
    mouse: MouseEvent,
    area: Rect,
    repeats: int,
    output: RetainedOutput,
    rows: int,
)
    requires
        output.wf(),
        0 < rows < output.lines@.len() <= usize::MAX,
        0 < repeats,
        3 * repeats <= usize::MAX,
        settled(state.scroll, output.lines@, rows),
        shown_from(state.scroll, output.lines@, rows) <= output.lines@.len() - rows,
        mouse.kind is ScrollUp || mouse.kind is ScrollDown,
    ensures
        ({
            let (next, taken) = state.pointed(mouse, area, repeats, output);
            let shown = next.framed(output, rows).scroll;
            let from = shown_from(state.scroll, output.lines@, rows);
            let furthest = output.lines@.len() - rows;
            let to = if mouse.kind is ScrollUp {
                if from >= 3 * repeats {
                    from - 3 * repeats
                } else {
                    0
                }
            } else if from + 3 * repeats <= furthest {
                from + 3 * repeats
            } else {
                furthest
            };
            &&& taken
            &&& next.search == state.search
            &&& shown.visible == marked_lines(
                lines_from(output.lines@, to, rows),
                shown.selection,
            )
        }),
{
    moves_are_by_lines(state.scroll, output.lines@, output.truncated, rows, 3 * repeats);
}

proof fn the_first_with_a_source(lines: Seq<PipeLine>, found: LogMatch, place: int, from: int)
    requires
        0 <= from <= place < lines.len(),
        lines[place].source == Some((found.sequence, found.line)),
        forall|i: int|
            from <= i < place ==> (#[trigger] lines[i]).source != Some(
                (found.sequence, found.line),
            ),
    ensures
        line_with_source(lines, (found.sequence, found.line), from) == Some(place),
    decreases place - from,
{
    if from < place {
        assert(lines[from].source != Some((found.sequence, found.line)));
        the_first_with_a_source(lines, found, place, from + 1);
    }
}

/// The current match is highlighted where it stands in the shown line, behind
/// what the line shows before its output, and no other line changes.
pub proof fn the_current_match_is_highlighted(lines: Seq<PipeLine>, found: LogMatch, place: int)
    requires
        0 <= place < lines.len(),
        lines[place].source == Some((found.sequence, found.line)),
        lines[place].content_offset + found.start <= usize::MAX,
        lines[place].content_offset + found.end <= usize::MAX,
        forall|i: int|
            0 <= i < place ==> (#[trigger] lines[i]).source != Some((found.sequence, found.line)),
    ensures
        ({
            let shown = highlighted(lines, Some(found));
            &&& shown.len() == lines.len()
            &&& shown[place].highlight matches Some(bytes) && bytes.0 == lines[place].content_offset
                + found.start && bytes.1 == lines[place].content_offset + found.end
            &&& shown[place].text == lines[place].text
            &&& shown[place].source == lines[place].source
            &&& forall|i: int|
                0 <= i < lines.len() && i != place ==> #[trigger] shown[i] == lines[i]
        }),
        highlighted(lines, None) == lines,
{
    the_first_with_a_source(lines, found, place, 0);
}

/// Opening a search drops the selection and holds the view where it is, so that
/// new output does not move it; following leaves the hold.
pub proof fn a_search_holds_the_view(state: LogsState, output: RetainedOutput, rows: int)
    ensures
        ({
            let (held, effect) = state.acted(LogViewAction::Pause, output, rows);
            &&& effect is Changed
            &&& held.scroll.selection is None
            &&& held.scroll.held
            &&& !held.scroll.follows()
            &&& held.scroll.visible.len() == state.scroll.visible.len()
            &&& held.search == state.search
        }),
        state.acted(LogViewAction::Follow, output, rows).0.scroll.follows(),
        state.acted(LogViewAction::Ignored, output, rows) == (state, LogsEffect::Ignored),
{
}

/// Copying takes the selected text where there is some and changes nothing, and
/// else takes the lines that are shown.
pub proof fn copying_takes_the_selection_or_the_page(
    state: LogsState,
    output: RetainedOutput,
    rows: int,
)
    ensures
        ({
            let (next, effect) = state.acted(LogViewAction::Copy, output, rows);
            let shown = state.framed(output, rows).scroll.visible;
            &&& state.scroll.selected(output.lines@) matches Some(text) ==> next == state && effect
                == LogsEffect::Copy(text)
            &&& state.scroll.selected(output.lines@) is None && shown.len() == 1 ==> effect
                == LogsEffect::Copy(shown[0].text@)
            &&& state.scroll.selected(output.lines@) is None && shown.len() == 2 ==> effect
                == LogsEffect::Copy(shown[0].text@ + seq!['\n'] + shown[1].text@)
        }),
{
    reveal_strlit("\n");
    reveal_with_fuel(joined, 3);
    let shown = state.framed(output, rows).scroll.visible;
    let parts = line_texts(shown);
    if shown.len() == 2 {
        assert("\n"@ =~= seq!['\n']);
        assert(parts.drop_last() =~= seq![parts[0]]);
    }
}

/// A selection is marked in the lines from its earlier end to its later one: in
/// the first from the end on, in the last up to the end, in those between as a
/// whole, and in no other.
pub proof fn marks_show_the_selection(
    line: PipeLine,
    selection: LogSelection,
    first: SelectionPoint,
    last: SelectionPoint,
)
    requires
        selection.anchor == first && selection.cursor == last || selection.anchor == last
            && selection.cursor == first,
        source_before(first.source, last.source),
        line.source is Some,
        byte_len(line.text@) <= usize::MAX,
        first.byte < byte_len(line.text@),
        0 < last.byte <= byte_len(line.text@),
    ensures
        ({
            let shown = marked(line, Some(selection));
            let own = line.source->0;
            let size = byte_len(line.text@) as usize;
            &&& own == first.source ==> shown.selection == Some((first.byte, size))
            &&& own == last.source ==> shown.selection == Some((0usize, last.byte))
            &&& source_before(first.source, own) && source_before(own, last.source)
                ==> shown.selection == Some((0usize, size))
            &&& source_before(own, first.source) || source_before(last.source, own)
                ==> shown.selection is None
            &&& shown.text == line.text
            &&& shown.source == line.source
        }),
        marked(line, None).selection is None,
{
}

/// The scrollbar stands for the lines that are shown of those retained, and
/// there is none where all of them fit.
pub proof fn scrollbars_measure_the_view(
    state: ScrollState,
    lines: Seq<PipeLine>,
    truncated: bool,
    rows: int,
)
    requires
        retained_lines(lines, truncated),
        0 < rows,
        lines.len() < usize::MAX,
        state.follows(),
    ensures
        ({
            let framed = state.framed(lines, truncated, rows);
            &&& lines.len() <= rows ==> framed.scrollbar is None
            &&& lines.len() > rows ==> (framed.scrollbar matches Some(bar) && bar.position
                == lines.len() - rows && bar.content_length == lines.len() - rows + 1
                && bar.viewport_length == rows)
        }),
{
    let framed = state.framed(lines, truncated, rows);
    if lines.len() > rows {
        let first = lines.len() - rows;
        assert(framed.visible[0].source == lines[first].source);
        place_is_unique(lines, truncated, first);
    }
}

/// The pointer acts on the cell of the pane that it points at.
pub proof fn presses_select_under_the_pointer(
    state: LogsState,
    mouse: MouseEvent,
    area: Rect,
    repeats: int,
    output: RetainedOutput,
)
    requires
        state.scroll.scrollbar is None,
        mouse.kind == MouseEventKind::Down(MouseButton::Left),
    ensures
        ({
            let (next, taken) = state.pointed(mouse, area, repeats, output);
            let inside = area.x <= mouse.column < area.x + area.width && area.y <= mouse.row
                < area.y + area.height;
            &&& taken <==> inside
            &&& !inside ==> next == state
            &&& inside ==> next.scroll == state.scroll.selecting(
                mouse.row - area.y,
                mouse.column - area.x,
            ).0
        }),
{
}

/// A click that selects nothing leaves no selection behind.
pub proof fn an_empty_selection_is_dropped(
    state: ScrollState,
    row: int,
    column: int,
    last_column: int,
)
    requires
        0 <= row < state.visible.len() <= usize::MAX,
        state.visible[row].source is Some,
        plainly_wide(state.visible[row]),
        state.visible[row].text@.len() <= column <= usize::MAX,
        state.visible[row].text@.len() <= last_column <= usize::MAX,
    ensures
        state.selecting(row, column).0.selection is Some,
        state.selecting(row, column).0.finishing(row, last_column).0.selection is None,
{
    columns_are_characters(state.visible[row].text@, column);
    columns_are_characters(state.visible[row].text@, last_column);
    let pressed = state.selecting(row, column).0;
    assert(pressed.visible[row].text == state.visible[row].text);
    assert(pressed.visible[row].source == state.visible[row].source);
}

/// Moving the thumb shows the lines from the place that it stands for, where
/// more lines follow than the pane holds.
pub proof fn the_thumb_moves_the_logs(
    state: ScrollState,
    lines: Seq<PipeLine>,
    truncated: bool,
    track_rows: int,
    thumb_start: int,
    bar: ConsoleScrollbar,
)
    requires
        retained_lines(lines, truncated),
        state.scrollbar == Some(bar),
        0 < bar.viewport_length,
        0 <= dragged_position(bar, track_rows, thumb_start),
        dragged_position(bar, track_rows, thumb_start) + bar.viewport_length < lines.len(),
    ensures
        ({
            let moved = state.thumbed(lines, truncated, track_rows, thumb_start);
            &&& moved.visible == marked_lines(
                lines_from(
                    lines,
                    dragged_position(bar, track_rows, thumb_start),
                    bar.viewport_length as int,
                ),
                state.selection,
            )
            &&& moved.selection == state.selection
            &&& !moved.follows()
        }),
{
    let position = dragged_position(bar, track_rows, thumb_start);
    if !(position == 0 && truncated) {
        assert(lines[position].source is Some);
        place_is_unique(lines, truncated, position);
    }
}

} // verus!
