//! What holds of every Logs viewport, whatever was done to it before.

use vstd::prelude::*;

#[allow(unused_imports)]
use crate::output::{
    last_lines, lines_from, place_is_unique, place_of, retained_lines, LineSource, PipeLine,
};
#[allow(unused_imports)]
use crate::pipe_scroll::{marked_lines, navigated, Position, ScrollMove, ScrollState};
#[allow(unused_imports)]
use crate::scrollbar::{less, smaller};

verus! {

/// The first line that a viewport shows.
pub open spec fn shown_from(state: ScrollState, lines: Seq<PipeLine>, rows: int) -> int {
    match state.position {
        Position::Following => less(lines.len() as int, rows),
        Position::Head => 0,
        Position::Source(source) => place_of(lines, source)->0,
    }
}

/// A viewport right after a frame: nothing is queued, the visible lines are
/// the pane rows from its position on, its selection is retained, and without
/// a hold it rests above the tail only while output lies below the pane.
pub open spec fn settled(state: ScrollState, lines: Seq<PipeLine>, rows: int) -> bool {
    let start = shown_from(state, lines, rows);
    &&& state.pending.len() == 0
    &&& state.target is None
    &&& state.position is Source ==> place_of(lines, state.position->Source_0) is Some
    &&& 0 <= start <= lines.len()
    &&& state.visible == marked_lines(lines_from(lines, start, rows), state.selection)
    &&& state.selection_kept(lines)
    &&& !(state.position is Following) && !state.held ==> lines.len() - start > rows
}

proof fn place_in_range(lines: Seq<PipeLine>, source: LineSource)
    requires
        place_of(lines, source) is Some,
    ensures
        0 <= place_of(lines, source)->0 < lines.len(),
        lines[place_of(lines, source)->0].source == Some(source),
{
}

proof fn tail_is_a_window(lines: Seq<PipeLine>, rows: int)
    requires
        0 <= rows,
    ensures
        last_lines(lines, rows) == lines_from(lines, less(lines.len() as int, rows), rows),
        last_lines(lines, smaller(rows, lines.len() as int)) == last_lines(lines, rows),
{
    assert(last_lines(lines, rows) =~= lines_from(lines, less(lines.len() as int, rows), rows));
    assert(last_lines(lines, smaller(rows, lines.len() as int)) =~= last_lines(lines, rows));
}

/// The state of a viewport after its movement and before its selection is
/// drawn.
spec fn resting(state: ScrollState, lines: Seq<PipeLine>, rows: int) -> bool {
    let start = shown_from(state, lines, rows);
    &&& state.pending.len() == 0
    &&& state.target is None
    &&& state.position is Source ==> place_of(lines, state.position->Source_0) is Some
    &&& 0 <= start <= lines.len()
    &&& state.visible == lines_from(lines, start, rows)
    &&& state.selection_kept(lines)
    &&& !(state.position is Following) && !state.held ==> lines.len() - start > rows
}

proof fn refresh_rests(state: ScrollState, lines: Seq<PipeLine>, rows: int)
    requires
        0 < rows,
        state.pending.len() == 0,
        state.target is None,
        state.selection_kept(lines),
    ensures
        resting(state.refreshed(lines, rows), lines, rows),
        state.refreshed(lines, rows).held == state.held,
        state.refreshed(lines, rows).selection == state.selection,
{
    tail_is_a_window(lines, rows);
    if let Position::Source(source) = state.position {
        if place_of(lines, source) is Some {
            place_in_range(lines, source);
        }
    }
}

proof fn place_rests(
    state: ScrollState,
    lines: Seq<PipeLine>,
    truncated: bool,
    rows: int,
    start: int,
)
    requires
        retained_lines(lines, truncated),
        0 < rows,
        lines.len() > 0,
        state.pending.len() == 0,
        state.target is None,
        state.selection_kept(lines),
        0 <= start <= lines.len() - smaller(rows, lines.len() as int),
    ensures
        ({
            let there = state.placed(
                lines,
                truncated,
                smaller(rows, lines.len() as int),
                start,
            );
            &&& resting(there, lines, rows)
            &&& there.held == state.held
            &&& there.selection == state.selection
            &&& there.visible == lines_from(lines, start, rows)
        }),
{
    let height = smaller(rows, lines.len() as int);
    tail_is_a_window(lines, rows);
    assert(lines_from(lines, start, height) =~= lines_from(lines, start, rows));
    if !(start == 0 && truncated) {
        assert(lines[start].source is Some);
        place_is_unique(lines, truncated, start);
    }
    if start == lines.len() - height {
        assert(lines_from(lines, start, rows) =~= last_lines(lines, rows));
    }
}

proof fn navigation_stays_in_range(pending: Seq<ScrollMove>, start: int, max_start: int)
    requires
        0 <= start <= max_start,
    ensures
        0 <= navigated(pending, start, max_start).0 <= max_start,
    decreases pending.len(),
{
    if pending.len() > 0 {
        navigation_stays_in_range(pending.drop_last(), start, max_start);
    }
}

proof fn drag_rests(state: ScrollState, lines: Seq<PipeLine>, rows: int)
    requires
        resting(state, lines, rows),
        0 < rows,
    ensures
        resting(state.dragged(), lines, rows),
        state.dragged().held == state.held,
        state.dragged().visible == state.visible,
{
    if let Some(selection) = state.selection {
        if selection.dragging && selection.cursor_row < state.visible.len() {
            let line = state.visible[selection.cursor_row as int];
            let start = shown_from(state, lines, rows);
            assert(line == lines[start + selection.cursor_row]);
            if let Some(source) = line.source {
                assert(lines[start + selection.cursor_row].source == Some(source));
                assert(place_of(lines, source) is Some);
            }
        }
    }
}

proof fn start_in_range(state: ScrollState, lines: Seq<PipeLine>, max_start: int)
    requires
        0 <= max_start,
    ensures
        0 <= state.start_of(lines, max_start) <= max_start,
{
    if let Position::Source(source) = state.position {
        if place_of(lines, source) is Some {
            place_in_range(lines, source);
        }
    }
}

/// What is applied to a viewport before its selection is drawn.
spec fn advanced(kept: ScrollState, lines: Seq<PipeLine>, truncated: bool, rows: int) -> ScrollState {
    match kept.target {
        Some(source) => ScrollState { target: None, ..kept }.targeting(
            lines,
            truncated,
            rows,
            source,
        ),
        None => if kept.pending.len() > 0 {
            kept.navigating(lines, truncated, rows)
        } else {
            kept.refreshed(lines, rows)
        },
    }
}

spec fn with_kept_selection(state: ScrollState, lines: Seq<PipeLine>) -> ScrollState {
    if state.selection_kept(lines) {
        state
    } else {
        ScrollState { selection: None, ..state }
    }
}

proof fn advance_rests(kept: ScrollState, lines: Seq<PipeLine>, truncated: bool, rows: int)
    requires
        retained_lines(lines, truncated),
        0 < rows,
        kept.selection_kept(lines),
        kept.target is None || kept.pending.len() == 0,
    ensures
        resting(advanced(kept, lines, truncated, rows), lines, rows),
{
    let height = smaller(rows, lines.len() as int);
    let max_start = lines.len() - height;
    tail_is_a_window(lines, rows);
    if lines.len() == 0 {
        assert(Seq::<PipeLine>::empty() =~= lines_from(lines, 0, rows));
        if kept.target is None && kept.pending.len() == 0 {
            refresh_rests(kept, lines, rows);
        }
    } else {
        match kept.target {
            Some(source) => {
                let free = ScrollState { target: None, ..kept };
                if place_of(lines, source) is None {
                    refresh_rests(
                        ScrollState { position: Position::Head, ..free },
                        lines,
                        rows,
                    );
                } else {
                    place_in_range(lines, source);
                    place_rests(
                        free,
                        lines,
                        truncated,
                        rows,
                        smaller(less(place_of(lines, source)->0, height / 2), max_start),
                    );
                }
            },
            None => {
                if kept.pending.len() > 0 {
                    start_in_range(kept, lines, max_start);
                    let first = kept.start_of(lines, max_start);
                    navigation_stays_in_range(kept.pending, first, max_start);
                    let (start, moved) = navigated(kept.pending, first, max_start);
                    let free = ScrollState { pending: Seq::empty(), ..kept };
                    place_rests(free, lines, truncated, rows, start);
                    drag_rests(free.placed(lines, truncated, height, start), lines, rows);
                } else {
                    refresh_rests(kept, lines, rows);
                }
            },
        }
    }
}

proof fn marking_settles(state: ScrollState, lines: Seq<PipeLine>, rows: int)
    requires
        resting(state, lines, rows),
        0 < rows,
    ensures
        settled(state.marking().measured(lines, rows), lines, rows),
        state.marking().measured(lines, rows).visible.len() <= rows,
        state.marking().measured(lines, rows).position == state.position,
        state.marking().measured(lines, rows).held == state.held,
        state.marking().measured(lines, rows).selection == state.selection,
{
}

/// Every frame settles the viewport: what was queued is applied to one
/// snapshot, and what is visible is a run of retained lines that fits the
/// pane. (A movement queued behind a search match waits for the next frame.)
pub proof fn every_frame_settles(
    state: ScrollState,
    lines: Seq<PipeLine>,
    truncated: bool,
    rows: int,
)
    requires
        retained_lines(lines, truncated),
        0 < rows,
        state.target is None || state.pending.len() == 0,
    ensures
        settled(state.framed(lines, truncated, rows), lines, rows),
        state.framed(lines, truncated, rows).visible.len() <= rows,
{
    let kept = with_kept_selection(state, lines);
    advance_rests(kept, lines, truncated, rows);
    marking_settles(advanced(kept, lines, truncated, rows), lines, rows);
}

/// Whatever was queued, two frames over the same output settle the viewport.
/// The first places a search match, and the second applies a movement that was
/// queued behind it.
pub proof fn two_frames_settle_everything(
    state: ScrollState,
    lines: Seq<PipeLine>,
    truncated: bool,
    rows: int,
)
    requires
        retained_lines(lines, truncated),
        0 < rows,
    ensures
        settled(state.framed(lines, truncated, rows).framed(lines, truncated, rows), lines, rows),
{
    assert(state.framed(lines, truncated, rows).target is None);
    every_frame_settles(state.framed(lines, truncated, rows), lines, truncated, rows);
}

proof fn places_survive_appends(
    lines: Seq<PipeLine>,
    more: Seq<PipeLine>,
    truncated: bool,
    source: LineSource,
)
    requires
        retained_lines(lines + more, truncated),
        place_of(lines, source) is Some,
    ensures
        place_of(lines + more, source) == place_of(lines, source),
{
    place_in_range(lines, source);
    let place = place_of(lines, source)->0;
    assert((lines + more)[place] == lines[place]);
    place_is_unique(lines + more, truncated, place);
}

/// A viewport that rests above the tail does not move when output arrives: it
/// keeps its position, every line it shows stays where it is, and new lines
/// only fill rows that were empty.
pub proof fn paused_window_stays_anchored(
    state: ScrollState,
    lines: Seq<PipeLine>,
    more: Seq<PipeLine>,
    truncated: bool,
    rows: int,
)
    requires
        retained_lines(lines + more, truncated),
        0 < rows,
        settled(state, lines, rows),
        !state.follows(),
    ensures
        ({
            let later = state.framed(lines + more, truncated, rows);
            &&& later.position == state.position
            &&& !later.follows()
            &&& state.visible.is_prefix_of(later.visible)
            &&& state.visible.len() == rows ==> later.visible == state.visible
            &&& later.selection == state.selection
        }),
{
    let all = lines + more;
    let later = state.framed(all, truncated, rows);
    if let Some(selection) = state.selection {
        places_survive_appends(lines, more, truncated, selection.anchor.source);
        places_survive_appends(lines, more, truncated, selection.cursor.source);
    }
    if let Position::Source(source) = state.position {
        places_survive_appends(lines, more, truncated, source);
        place_in_range(lines, source);
    }
    let start = shown_from(state, lines, rows);
    assert(later.visible == marked_lines(lines_from(all, start, rows), state.selection));
    let before = lines_from(lines, start, rows);
    let now = lines_from(all, start, rows);
    assert(before.len() <= now.len());
    assert forall|i: int| 0 <= i < before.len() implies before[i] == now[i] by {}
    assert(state.visible =~= later.visible.take(state.visible.len() as int));
    if state.visible.len() == rows {
        assert(later.visible =~= state.visible);
    }
}

/// A following viewport always shows the live tail, however the output
/// changed, and keeps following.
pub proof fn following_shows_the_live_tail(
    state: ScrollState,
    lines: Seq<PipeLine>,
    truncated: bool,
    rows: int,
)
    requires
        0 < rows,
        state.follows(),
    ensures
        ({
            let framed = state.framed(lines, truncated, rows);
            &&& framed.follows()
            &&& framed.visible == marked_lines(last_lines(lines, rows), framed.selection)
        }),
{
}

/// The follow action shows the live tail again, from any viewport.
pub proof fn follow_returns_to_the_live_tail(
    state: ScrollState,
    lines: Seq<PipeLine>,
    truncated: bool,
    rows: int,
)
    requires
        0 < rows,
    ensures
        state.at_tail().follows(),
        ({
            let framed = state.at_tail().framed(lines, truncated, rows);
            &&& framed.follows()
            &&& framed.visible == marked_lines(last_lines(lines, rows), framed.selection)
        }),
{
}

/// A viewport whose source line was evicted moves to the retained head instead
/// of guessing from the tail.
pub proof fn evicted_anchor_moves_to_the_head(
    state: ScrollState,
    lines: Seq<PipeLine>,
    truncated: bool,
    rows: int,
)
    requires
        0 < rows,
        state.pending.len() == 0,
        state.target is None,
        state.position is Source,
        place_of(lines, state.position->Source_0) is None,
        state.held || lines.len() > rows,
    ensures
        ({
            let framed = state.framed(lines, truncated, rows);
            &&& framed.position == Position::Head
            &&& framed.visible == marked_lines(lines_from(lines, 0, rows), framed.selection)
        }),
{
}

/// Moving down by at least the retained lines reaches the tail, and an unheld
/// viewport follows from there.
pub proof fn reaching_the_tail_resumes_following(
    state: ScrollState,
    lines: Seq<PipeLine>,
    truncated: bool,
    rows: int,
    distance: int,
)
    requires
        0 < rows,
        lines.len() <= usize::MAX,
        lines.len() <= distance <= usize::MAX,
        0 < distance,
        state.pending.len() == 0,
        state.target is None,
        !state.held,
    ensures
        state.queued(distance, 1).framed(lines, truncated, rows).follows(),
{
    let queued = state.queued(distance, 1);
    if !state.follows() && lines.len() > 0 {
        let height = smaller(rows, lines.len() as int);
        let max_start = lines.len() - height;
        let kept = with_kept_selection(queued, lines);
        let first = kept.start_of(lines, max_start);
        start_in_range(kept, lines, max_start);
        let only = ScrollMove { lines: distance as usize, direction: 1 };
        assert(kept.pending =~= seq![only]);
        assert(kept.pending.drop_last() =~= Seq::<ScrollMove>::empty());
        reveal_with_fuel(navigated, 2);
        assert(navigated(kept.pending, first, max_start).0 == max_start);
    }
}

/// Moving up beyond the retained head stops at the head and leaves no debt:
/// the next move down counts from there.
pub proof fn no_scroll_debt_at_the_head(
    state: ScrollState,
    lines: Seq<PipeLine>,
    truncated: bool,
    rows: int,
    distance: int,
    back: int,
)
    requires
        retained_lines(lines, truncated),
        0 < rows,
        lines.len() <= usize::MAX,
        lines.len() <= distance <= usize::MAX,
        0 < back < lines.len() - rows,
        state.pending.len() == 0,
        state.target is None,
        !state.held,
    ensures
        ({
            let top = state.queued(distance, (-1) as isize).framed(lines, truncated, rows);
            let below = top.queued(back, 1).framed(lines, truncated, rows);
            &&& top.visible == marked_lines(lines_from(lines, 0, rows), top.selection)
            &&& below.visible == marked_lines(lines_from(lines, back, rows), below.selection)
        }),
{
    let up = state.queued(distance, (-1) as isize);
    let max_start = lines.len() - rows;
    let kept = with_kept_selection(up, lines);
    let first = kept.start_of(lines, max_start);
    start_in_range(kept, lines, max_start);
    let one_up = ScrollMove { lines: distance as usize, direction: (-1) as isize };
    assert(kept.pending =~= seq![one_up]);
    assert(kept.pending.drop_last() =~= Seq::<ScrollMove>::empty());
    reveal_with_fuel(navigated, 2);
    assert(navigated(kept.pending, first, max_start).0 == 0);
    let free = ScrollState { pending: Seq::empty(), ..kept };
    place_rests(free, lines, truncated, rows, 0);
    let placed = free.placed(lines, truncated, rows, 0);
    drag_rests(placed, lines, rows);
    let moved_up = navigated(kept.pending, first, max_start).1;
    let rested = if moved_up {
        placed.dragged()
    } else {
        placed
    };
    marking_settles(rested, lines, rows);
    let top = up.framed(lines, truncated, rows);
    assert(top == rested.marking().measured(lines, rows));
    assert(top.position == placed.position);
    let down = top.queued(back, 1);
    let kept_down = with_kept_selection(down, lines);
    let one_down = ScrollMove { lines: back as usize, direction: 1 };
    assert(down.pending =~= seq![one_down]);
    assert(kept_down.pending.drop_last() =~= Seq::<ScrollMove>::empty());
    assert(kept_down.start_of(lines, max_start) == 0) by {
        if !truncated {
            place_is_unique(lines, truncated, 0);
        }
    }
    assert(navigated(kept_down.pending, 0, max_start).0 == back);
    let free_down = ScrollState { pending: Seq::empty(), ..kept_down };
    place_rests(free_down, lines, truncated, rows, back);
    drag_rests(free_down.placed(lines, truncated, rows, back), lines, rows);
}

/// A move shows the lines that many lines further up or down, as far as the
/// retained lines reach.
pub proof fn moves_are_by_lines(
    state: ScrollState,
    lines: Seq<PipeLine>,
    truncated: bool,
    rows: int,
    distance: int,
)
    requires
        retained_lines(lines, truncated),
        0 < rows < lines.len() <= usize::MAX,
        0 < distance <= usize::MAX,
        settled(state, lines, rows),
        shown_from(state, lines, rows) <= lines.len() - rows,
    ensures
        ({
            let from = shown_from(state, lines, rows);
            let up = state.queued(distance, (-1) as isize).framed(lines, truncated, rows);
            let down = state.queued(distance, 1).framed(lines, truncated, rows);
            let above = if from >= distance {
                from - distance
            } else {
                0
            };
            let below = if from + distance <= lines.len() - rows {
                from + distance
            } else {
                lines.len() - rows
            };
            &&& up.visible == marked_lines(lines_from(lines, above, rows), up.selection)
            &&& down.visible == marked_lines(lines_from(lines, below, rows), down.selection)
        }),
{
    let from = shown_from(state, lines, rows);
    let max_start = lines.len() - rows;
    tail_is_a_window(lines, rows);
    reveal_with_fuel(navigated, 2);
    let up = with_kept_selection(state.queued(distance, (-1) as isize), lines);
    let one_up = ScrollMove { lines: distance as usize, direction: (-1) as isize };
    assert(up.pending =~= seq![one_up]);
    assert(up.pending.drop_last() =~= Seq::<ScrollMove>::empty());
    let above = navigated(up.pending, from, max_start).0;
    let free_up = ScrollState { pending: Seq::empty(), ..up };
    place_rests(free_up, lines, truncated, rows, above);
    drag_rests(free_up.placed(lines, truncated, rows, above), lines, rows);
    if !state.follows() {
        let down = with_kept_selection(state.queued(distance, 1), lines);
        let one_down = ScrollMove { lines: distance as usize, direction: 1 };
        assert(down.pending =~= seq![one_down]);
        assert(down.pending.drop_last() =~= Seq::<ScrollMove>::empty());
        let below = navigated(down.pending, from, max_start).0;
        let free_down = ScrollState { pending: Seq::empty(), ..down };
        place_rests(free_down, lines, truncated, rows, below);
        drag_rests(free_down.placed(lines, truncated, rows, below), lines, rows);
    }
}

/// The line of a match that is shown stands in the pane, with its text.
pub proof fn a_shown_match_is_in_the_pane(
    state: ScrollState,
    lines: Seq<PipeLine>,
    truncated: bool,
    rows: int,
    place: int,
)
    requires
        retained_lines(lines, truncated),
        0 < rows,
        0 <= place < lines.len(),
        lines[place].source is Some,
    ensures
        ({
            let framed = state.showing(lines[place].source->0).framed(lines, truncated, rows);
            let from = shown_from(framed, lines, rows);
            &&& from <= place < from + framed.visible.len()
            &&& framed.visible[place - from].source == lines[place].source
            &&& framed.visible[place - from].text == lines[place].text
            &&& !framed.follows()
        }),
{
    let source = lines[place].source->0;
    place_is_unique(lines, truncated, place);
    let height = smaller(rows, lines.len() as int);
    let max_start = lines.len() - height;
    let start = smaller(less(place, height / 2), max_start);
    assert(start <= place < start + height);
    let free = ScrollState { target: None, ..state.showing(source) };
    place_rests(free, lines, truncated, rows, start);
    let placed = free.placed(lines, truncated, height, start);
    if !(start == 0 && truncated) {
        place_is_unique(lines, truncated, start);
    }
    assert(shown_from(placed, lines, rows) == start);
}

/// Going to the head shows the first retained lines, whatever was shown before,
/// and follows only where they are all there is.
pub proof fn the_head_shows_the_first_lines(
    state: ScrollState,
    lines: Seq<PipeLine>,
    truncated: bool,
    rows: int,
)
    requires
        0 < rows,
    ensures
        ({
            let framed = state.at_head().framed(lines, truncated, rows);
            &&& framed.visible == marked_lines(lines_from(lines, 0, rows), framed.selection)
            &&& framed.follows() <==> lines.len() <= rows
        }),
{
    tail_is_a_window(lines, rows);
}

/// Moving a viewport does not change a finished selection or its text.
pub proof fn scrolling_preserves_a_selection(
    state: ScrollState,
    lines: Seq<PipeLine>,
    truncated: bool,
    rows: int,
    distance: int,
    direction: isize,
)
    requires
        state.selection_kept(lines),
        state.selection is Some ==> !state.selection->0.dragging,
    ensures
        ({
            let moved = state.queued(distance, direction).framed(lines, truncated, rows);
            &&& moved.selection == state.selection
            &&& moved.selected(lines) == state.selected(lines)
        }),
{
}

/// Moves in one direction add up, in whatever steps they come.
pub proof fn moves_add_up(state: ScrollState, first: int, second: int, direction: isize)
    requires
        0 < first,
        0 < second,
        first + second <= usize::MAX,
        direction == 1 || direction == -1,
        !state.follows(),
        state.pending.len() == 0,
    ensures
        state.queued(first, direction).queued(second, direction) == state.queued(
            first + second,
            direction,
        ),
{
    let once = state.queued(first, direction);
    assert(once.pending.drop_last() =~= state.pending);
    assert(once.queued(second, direction).pending =~= state.queued(
        first + second,
        direction,
    ).pending);
}

/// A match that is shown stands in the middle of the pane, where there are
/// enough lines above and below it.
pub proof fn a_shown_match_is_centered(
    state: ScrollState,
    lines: Seq<PipeLine>,
    truncated: bool,
    rows: int,
    place: int,
)
    requires
        retained_lines(lines, truncated),
        0 < rows <= lines.len(),
        rows <= place,
        place + rows <= lines.len(),
        lines[place].source is Some,
    ensures
        shown_from(
            state.showing(lines[place].source->0).framed(lines, truncated, rows),
            lines,
            rows,
        ) == place - rows / 2,
{
    let source = lines[place].source->0;
    place_is_unique(lines, truncated, place);
    let start = place - rows / 2;
    place_is_unique(lines, truncated, start);
    let free = ScrollState { target: None, ..state.showing(source) };
    place_rests(free, lines, truncated, rows, start);
    assert(shown_from(free.placed(lines, truncated, rows, start), lines, rows) == start);
}

} // verus!
