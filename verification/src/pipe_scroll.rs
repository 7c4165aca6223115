//! Stable viewport state for one Process's retained Logs output.
//!
//! Following is the only state that moves when output arrives. Scrolling up
//! anchors the viewport to a retained source line. New output can then arrive
//! without moving that anchor. If retention evicts the anchor, the viewport
//! moves to the retained head instead of guessing from the live tail.
//!
//! `ScrollState` is the viewport as mathematical values, with one function for
//! each transition; every method of `PipeScroll` is proved to be its transition.

use vstd::prelude::*;

use crate::columns::byte_at_column;
use crate::input::{MouseButton, MouseEvent, MouseEventKind, Rect};
use crate::output::{is_source_before, LineSource, PipeLine, RetainedOutput};
use crate::scrollbar::{position_for_thumb, scrollbar_thumb, ConsoleScrollbar};
use crate::text::{byte_length, join, slice_between_bytes};

#[allow(unused_imports)]
use crate::columns::byte_for_column;
#[allow(unused_imports)]
use crate::output::{last_lines, lines_from, place_of, place_of_anchor, source_before};
#[allow(unused_imports)]
use crate::scrollbar::{capped, dragged_position, less, smaller, thumb};
#[allow(unused_imports)]
use crate::text::{between_bytes, byte_len, joined, texts};

verus! {

/// Where the viewport stands.
#[derive(Clone, Copy, Debug, PartialEq, Eq)]
pub enum Position {
    /// At the live tail.
    Following,
    /// At the retained head.
    Head,
    /// At one retained source line.
    Source(LineSource),
}

/// One queued movement: a number of lines and a direction of 1 or -1.
#[derive(Clone, Copy, Debug, PartialEq, Eq, Structural)]
pub struct ScrollMove {
    pub lines: usize,
    pub direction: isize,
}

/// One end of a selection: a source line and a byte of its text.
#[derive(Clone, Copy, Debug, PartialEq, Eq)]
pub struct SelectionPoint {
    pub source: LineSource,
    pub byte: usize,
}

/// A selection in the making or finished.
#[derive(Clone, Copy, Debug, PartialEq, Eq)]
pub struct LogSelection {
    pub anchor: SelectionPoint,
    pub cursor: SelectionPoint,
    pub cursor_row: usize,
    pub cursor_column: usize,
    pub dragging: bool,
}

/// What the pointer holds while it drags on the scrollbar.
#[derive(Clone, Copy, Debug, PartialEq, Eq, Structural)]
pub enum ScrollbarGesture {
    Track,
    Thumb { grab_row: usize },
}

/// Whether one point comes before another or is the same.
pub open spec fn point_reaches(a: SelectionPoint, b: SelectionPoint) -> bool {
    source_before(a.source, b.source) || (a.source == b.source && a.byte <= b.byte)
}

impl LogSelection {
    /// The earlier and the later end.
    pub open spec fn ends(self) -> (SelectionPoint, SelectionPoint) {
        if point_reaches(self.anchor, self.cursor) {
            (self.anchor, self.cursor)
        } else {
            (self.cursor, self.anchor)
        }
    }
}

/// The bytes of a source line that lie between two ends, not cut to the text.
pub open spec fn bytes_between_ends(
    line: PipeLine,
    start: SelectionPoint,
    end: SelectionPoint,
) -> (int, int) {
    (
        if line.source == Some(start.source) {
            start.byte as int
        } else {
            0
        },
        if line.source == Some(end.source) {
            end.byte as int
        } else {
            byte_len(line.text@) as int
        },
    )
}

/// The selected bytes of a line, if any.
pub open spec fn selected_bytes(line: PipeLine, selection: Option<LogSelection>) -> Option<
    (usize, usize),
> {
    match selection {
        None => None,
        Some(selection) => {
            let (start, end) = selection.ends();
            let (from, to) = bytes_between_ends(line, start, end);
            match line.source {
                None => None,
                Some(source) => if source_before(source, start.source) || source_before(
                    end.source,
                    source,
                ) || from >= to {
                    None
                } else {
                    Some(
                        (
                            smaller(from, byte_len(line.text@) as int) as usize,
                            smaller(to, byte_len(line.text@) as int) as usize,
                        ),
                    )
                },
            }
        },
    }
}

/// A line that shows a selection.
pub open spec fn marked(line: PipeLine, selection: Option<LogSelection>) -> PipeLine {
    PipeLine { selection: selected_bytes(line, selection), ..line }
}

/// Lines that show a selection.
pub open spec fn marked_lines(lines: Seq<PipeLine>, selection: Option<LogSelection>) -> Seq<
    PipeLine,
> {
    lines.map_values(|line: PipeLine| marked(line, selection))
}

/// The point under a row and column of the visible lines.
pub open spec fn point_at(
    visible: Seq<PipeLine>,
    row: int,
    column: int,
    include_character: bool,
) -> Option<SelectionPoint> {
    if visible.len() == 0 {
        None
    } else {
        let line = visible[smaller(row, visible.len() - 1)];
        match line.source {
            None => None,
            Some(source) => Some(
                SelectionPoint {
                    source,
                    byte: byte_for_column(line.text@, column, include_character) as usize,
                },
            ),
        }
    }
}

/// The movement of a viewport start by one queued move.
pub open spec fn moved_start(start: int, movement: ScrollMove, max_start: int) -> int {
    if movement.direction < 0 {
        less(start, movement.lines as int)
    } else {
        smaller(capped(start + movement.lines), max_start)
    }
}

/// The start after all queued moves, and whether any of them moved it.
pub open spec fn navigated(pending: Seq<ScrollMove>, start: int, max_start: int) -> (int, bool)
    decreases pending.len(),
{
    if pending.len() == 0 {
        (start, false)
    } else {
        let (before, moved) = navigated(pending.drop_last(), start, max_start);
        let after = moved_start(before, pending.last(), max_start);
        (after, moved || after != before)
    }
}

/// The lines of one page move.
pub open spec fn page_lines(page_rows: u16) -> int {
    if page_rows <= 2 {
        1
    } else {
        page_rows - 1
    }
}

/// 1, 0 or -1 by the sign of a direction.
pub open spec fn sign(direction: isize) -> isize {
    if direction > 0 {
        1
    } else if direction < 0 {
        (-1) as isize
    } else {
        0
    }
}

/// A viewport as mathematical values.
pub struct ScrollState {
    pub position: Position,
    pub pending: Seq<ScrollMove>,
    pub target: Option<LineSource>,
    pub visible: Seq<PipeLine>,
    pub held: bool,
    pub selection: Option<LogSelection>,
    pub scrollbar: Option<ConsoleScrollbar>,
    pub gesture: Option<ScrollbarGesture>,
}

impl ScrollState {
    /// A viewport that was never shown.
    pub open spec fn fresh() -> Self {
        ScrollState {
            position: Position::Following,
            pending: Seq::empty(),
            target: None,
            visible: Seq::empty(),
            held: false,
            selection: None,
            scrollbar: None,
            gesture: None,
        }
    }

    /// Whether the viewport shows the live tail and will keep doing so.
    pub open spec fn follows(self) -> bool {
        self.position == Position::Following && self.pending.len() == 0 && self.target is None
    }

    /// How many lines above the live tail the next frame is asked to begin,
    /// where the viewport was not moved otherwise.
    pub open spec fn above_tail(self) -> Option<usize> {
        if self.position != Position::Following || self.target is Some {
            None
        } else if self.pending.len() == 0 {
            Some(0)
        } else if self.pending.len() == 1 && self.pending[0].direction < 0 {
            Some(self.pending[0].lines)
        } else {
            None
        }
    }

    /// One more movement in the queue. Moves in one direction add up; a move
    /// down from the live tail is dropped.
    pub open spec fn queued(self, lines: int, direction: isize) -> Self {
        if lines == 0 || direction == 0 || (direction > 0 && self.follows()) {
            self
        } else if self.pending.len() > 0 && self.pending.last().direction == sign(direction) {
            ScrollState {
                pending: self.pending.drop_last().push(
                    ScrollMove {
                        lines: capped(self.pending.last().lines + lines) as usize,
                        direction: sign(direction),
                    },
                ),
                ..self
            }
        } else {
            ScrollState {
                pending: self.pending.push(
                    ScrollMove { lines: lines as usize, direction: sign(direction) },
                ),
                ..self
            }
        }
    }

    /// The view with another source of lines.
    pub open spec fn showing(self, source: LineSource) -> Self {
        ScrollState {
            pending: Seq::empty(),
            target: Some(source),
            held: true,
            selection: None,
            ..self
        }
    }

    /// The view away from the live tail.
    pub open spec fn paused(self) -> Self {
        ScrollState {
            position: match self.first_source() {
                Some(source) => Position::Source(source),
                None => Position::Head,
            },
            pending: Seq::empty(),
            target: None,
            held: true,
            ..self
        }
    }

    /// The view at the first line.
    pub open spec fn at_head(self) -> Self {
        ScrollState {
            position: Position::Head,
            pending: Seq::empty(),
            target: None,
            visible: Seq::empty(),
            held: false,
            ..self
        }
    }

    /// The view at the live tail.
    pub open spec fn at_tail(self) -> Self {
        ScrollState {
            position: Position::Following,
            pending: Seq::empty(),
            target: None,
            visible: Seq::empty(),
            held: false,
            ..self
        }
    }

    /// The source of the first visible line.
    pub open spec fn first_source(self) -> Option<LineSource> {
        if self.visible.len() > 0 {
            self.visible[0].source
        } else {
            None
        }
    }

    /// The visible lines show the selection.
    pub open spec fn marking(self) -> Self {
        ScrollState { visible: marked_lines(self.visible, self.selection), ..self }
    }

    /// The view once a selection began.
    pub open spec fn selecting(self, row: int, column: int) -> (Self, bool) {
        match point_at(self.visible, row, column, false) {
            None => (self, false),
            Some(point) => (
                ScrollState {
                    selection: Some(
                        LogSelection {
                            anchor: point,
                            cursor: point,
                            cursor_row: row as usize,
                            cursor_column: column as usize,
                            dragging: true,
                        },
                    ),
                    ..self
                }.marking(),
                true,
            ),
        }
    }

    /// The view once the selection was extended.
    pub open spec fn extending(self, row: int, column: int) -> (Self, bool) {
        match point_at(self.visible, row, column, true) {
            None => (self, false),
            Some(point) => match self.selection {
                None => (self, false),
                Some(selection) => {
                    let base = if selection.anchor == selection.cursor {
                        self.paused()
                    } else {
                        self
                    };
                    (
                        ScrollState {
                            selection: Some(
                                LogSelection {
                                    cursor: point,
                                    cursor_row: row as usize,
                                    cursor_column: column as usize,
                                    ..selection
                                },
                            ),
                            ..base
                        }.marking(),
                        true,
                    )
                },
            },
        }
    }

    /// The view once the selection ended.
    pub open spec fn finishing(self, row: int, column: int) -> (Self, bool) {
        if self.selection is None {
            (self, false)
        } else {
            let extended = self.extending(row, column).0;
            let selection = LogSelection { dragging: false, ..extended.selection->0 };
            if selection.anchor == selection.cursor {
                extended.unselected()
            } else {
                (ScrollState { selection: Some(selection), ..extended }, true)
            }
        }
    }

    /// The view without a selection.
    pub open spec fn unselected(self) -> (Self, bool) {
        (ScrollState { selection: None, ..self }.marking(), self.selection is Some)
    }

    /// Whether both ends of the selection are still retained.
    pub open spec fn selection_kept(self, lines: Seq<PipeLine>) -> bool {
        match self.selection {
            None => true,
            Some(selection) => place_of(lines, selection.anchor.source) is Some && place_of(
                lines,
                selection.cursor.source,
            ) is Some,
        }
    }

    /// The visible lines from a retained position on. Where the output ends on
    /// screen and nothing holds the viewport, it follows the live tail again.
    pub open spec fn anchored(self, lines: Seq<PipeLine>, rows: int, start: int) -> Self {
        if lines.len() - start <= rows && !self.held {
            ScrollState {
                position: Position::Following,
                visible: last_lines(lines, rows),
                ..self
            }
        } else {
            ScrollState { visible: lines_from(lines, start, rows), ..self }
        }
    }

    /// The visible lines for the current position.
    pub open spec fn refreshed(self, lines: Seq<PipeLine>, rows: int) -> Self {
        match self.position {
            Position::Following => ScrollState { visible: last_lines(lines, rows), ..self },
            Position::Head => self.anchored(lines, rows, 0),
            Position::Source(source) => match place_of(lines, source) {
                Some(start) => self.anchored(lines, rows, start),
                None => ScrollState { position: Position::Head, ..self }.anchored(lines, rows, 0),
            },
        }
    }

    /// The visible lines from a chosen start on.
    pub open spec fn placed(
        self,
        lines: Seq<PipeLine>,
        truncated: bool,
        height: int,
        start: int,
    ) -> Self {
        let max_start = lines.len() - height;
        if start == max_start && !self.held {
            ScrollState {
                position: Position::Following,
                visible: last_lines(lines, height),
                ..self
            }
        } else {
            ScrollState {
                position: if start == 0 && truncated {
                    Position::Head
                } else {
                    Position::Source(lines[start].source->0)
                },
                visible: lines_from(lines, start, height),
                ..self
            }
        }
    }

    /// The start of the viewport before any queued move.
    pub open spec fn start_of(self, lines: Seq<PipeLine>, max_start: int) -> int {
        smaller(
            match self.position {
                Position::Following => max_start,
                Position::Head => 0,
                Position::Source(source) => match place_of(lines, source) {
                    Some(place) => place,
                    None => 0,
                },
            },
            max_start,
        )
    }

    /// A dragged selection follows the line that moved under the pointer.
    pub open spec fn dragged(self) -> Self {
        match self.selection {
            Some(selection) => if selection.dragging && selection.cursor_row < self.visible.len() {
                let line = self.visible[selection.cursor_row as int];
                match line.source {
                    Some(source) => ScrollState {
                        selection: Some(
                            LogSelection {
                                cursor: SelectionPoint {
                                    source,
                                    byte: byte_for_column(
                                        line.text@,
                                        selection.cursor_column as int,
                                        true,
                                    ) as usize,
                                },
                                ..selection
                            },
                        ),
                        ..self
                    },
                    None => self,
                }
            } else {
                self
            },
            None => self,
        }
    }

    /// All queued moves applied to one snapshot.
    pub open spec fn navigating(self, lines: Seq<PipeLine>, truncated: bool, rows: int) -> Self {
        if lines.len() == 0 {
            self.at_tail()
        } else {
            let height = smaller(rows, lines.len() as int);
            let max_start = lines.len() - height;
            let (start, moved) = navigated(
                self.pending,
                self.start_of(lines, max_start),
                max_start,
            );
            let there = ScrollState { pending: Seq::empty(), ..self }.placed(
                lines,
                truncated,
                height,
                start,
            );
            if moved {
                there.dragged()
            } else {
                there
            }
        }
    }

    /// The viewport centered on a source line.
    pub open spec fn targeting(
        self,
        lines: Seq<PipeLine>,
        truncated: bool,
        rows: int,
        source: LineSource,
    ) -> Self {
        if lines.len() == 0 {
            self.at_tail()
        } else {
            match place_of(lines, source) {
                None => ScrollState { position: Position::Head, ..self }.refreshed(lines, rows),
                Some(place) => {
                    let height = smaller(rows, lines.len() as int);
                    self.placed(
                        lines,
                        truncated,
                        height,
                        smaller(less(place, height / 2), lines.len() - height),
                    )
                },
            }
        }
    }

    /// The scrollbar for the visible lines; there is none where all lines fit.
    pub open spec fn measured(self, lines: Seq<PipeLine>, rows: int) -> Self {
        let scrollbar = match place_of_anchor(lines, self.first_source()) {
            Some(position) => if lines.len() > rows {
                Some(
                    ConsoleScrollbar {
                        position: position as usize,
                        content_length: capped(
                            less(lines.len() as int, self.visible.len() as int) + 1,
                        ) as usize,
                        viewport_length: self.visible.len() as usize,
                    },
                )
            } else {
                None
            },
            None => None,
        };
        ScrollState {
            scrollbar,
            gesture: if scrollbar is None {
                None
            } else {
                self.gesture
            },
            ..self
        }
    }

    /// The next frame of the viewport over one snapshot.
    pub open spec fn framed(self, lines: Seq<PipeLine>, truncated: bool, rows: int) -> Self {
        if rows == 0 {
            ScrollState { visible: Seq::empty(), scrollbar: None, gesture: None, ..self }
        } else {
            let kept = if self.selection_kept(lines) {
                self
            } else {
                ScrollState { selection: None, ..self }
            };
            let moved = match kept.target {
                Some(source) => ScrollState { target: None, ..kept }.targeting(
                    lines,
                    truncated,
                    rows,
                    source,
                ),
                None => if kept.pending.len() > 0 {
                    kept.navigating(lines, truncated, rows)
                } else {
                    kept.refreshed(lines, rows)
                },
            };
            moved.marking().measured(lines, rows)
        }
    }

    /// The viewport after the thumb was put at a row of the track.
    pub open spec fn thumbed(
        self,
        lines: Seq<PipeLine>,
        truncated: bool,
        track_rows: int,
        thumb_start: int,
    ) -> Self {
        match self.scrollbar {
            None => self,
            Some(scrollbar) => {
                let position = dragged_position(scrollbar, track_rows, thumb_start);
                let rows = scrollbar.viewport_length as int;
                if position == 0 && truncated {
                    ScrollState {
                        position: Position::Head,
                        pending: Seq::empty(),
                        target: None,
                        ..self
                    }.refreshed(lines, rows).marking().measured(lines, rows)
                } else if position < lines.len() && lines[position].source is Some {
                    ScrollState {
                        position: Position::Source(lines[position].source->0),
                        pending: Seq::empty(),
                        target: None,
                        ..self
                    }.refreshed(lines, rows).marking().measured(lines, rows)
                } else {
                    self
                }
            },
        }
    }

    /// The viewport after a mouse event on or off the scrollbar, and whether
    /// the scrollbar took the event.
    pub open spec fn pointed(
        self,
        mouse: MouseEvent,
        area: Rect,
        lines: Seq<PipeLine>,
        truncated: bool,
    ) -> (Self, bool) {
        let track_rows = area.height as int;
        match self.scrollbar {
            None => (self, false),
            Some(scrollbar) => if area.width <= 1 || area.height == 0 {
                (self, false)
            } else if mouse.kind == MouseEventKind::Down(MouseButton::Left) && mouse.column
                == less(area.right_edge() as int, 1) && area.y <= mouse.row < area.bottom_edge() {
                let row = mouse.row - area.y;
                let (start, length) = thumb(scrollbar, track_rows);
                if start <= row < start + length {
                    (
                        ScrollState {
                            gesture: Some(
                                ScrollbarGesture::Thumb { grab_row: (row - start) as usize },
                            ),
                            ..self
                        },
                        true,
                    )
                } else {
                    (
                        ScrollState {
                            gesture: Some(ScrollbarGesture::Track),
                            ..self.thumbed(lines, truncated, track_rows, less(row, length / 2))
                        },
                        true,
                    )
                }
            } else if mouse.kind == MouseEventKind::Drag(MouseButton::Left) {
                match self.gesture {
                    Some(ScrollbarGesture::Thumb { grab_row }) => (
                        self.thumbed(
                            lines,
                            truncated,
                            track_rows,
                            less(area.nearest_row(mouse.row), grab_row as int),
                        ),
                        true,
                    ),
                    Some(ScrollbarGesture::Track) => (self, true),
                    None => (self, false),
                }
            } else if mouse.kind == MouseEventKind::Up(MouseButton::Left) {
                (ScrollState { gesture: None, ..self }, self.gesture is Some)
            } else {
                (self, false)
            },
        }
    }

    /// The selected text of the retained lines, from the earlier end to the
    /// later one, if both are retained.
    pub open spec fn selected(self, lines: Seq<PipeLine>) -> Option<Seq<char>> {
        match self.selection {
            None => None,
            Some(selection) => {
                let (start, end) = selection.ends();
                match (place_of(lines, start.source), place_of(lines, end.source)) {
                    (Some(first), Some(last)) => if start == end || last < first {
                        None
                    } else {
                        Some(
                            joined(
                                selected_parts(lines.subrange(first, last + 1), start, end),
                                "\n"@,
                            ),
                        )
                    },
                    _ => None,
                }
            },
        }
    }
}

/// The selected part of each line.
pub open spec fn selected_parts(
    lines: Seq<PipeLine>,
    start: SelectionPoint,
    end: SelectionPoint,
) -> Seq<Seq<char>> {
    lines.map_values(
        |line: PipeLine|
            {
                let (from, to) = bytes_between_ends(line, start, end);
                let size = byte_len(line.text@) as int;
                between_bytes(line.text@, smaller(from, size), smaller(to, size))
            },
    )
}

/// Whether two points are the same.
fn same_point(a: SelectionPoint, b: SelectionPoint) -> (r: bool)
    ensures
        r == (a == b),
{
    a.source.0 == b.source.0 && a.source.1 == b.source.1 && a.byte == b.byte
}

fn same_source(a: LineSource, b: LineSource) -> (r: bool)
    ensures
        r == (a == b),
{
    a.0 == b.0 && a.1 == b.1
}

/// The viewport of one Process's Logs.
#[derive(Clone, Debug, PartialEq, Eq)]
pub struct PipeScroll {
    position: Position,
    pending: Vec<ScrollMove>,
    target: Option<LineSource>,
    visible: Vec<PipeLine>,
    held: bool,
    selection: Option<LogSelection>,
    scrollbar: Option<ConsoleScrollbar>,
    scrollbar_gesture: Option<ScrollbarGesture>,
}

impl View for PipeScroll {
    type V = ScrollState;

    closed spec fn view(&self) -> ScrollState {
        ScrollState {
            position: self.position,
            pending: self.pending@,
            target: self.target,
            visible: self.visible@,
            held: self.held,
            selection: self.selection,
            scrollbar: self.scrollbar,
            gesture: self.scrollbar_gesture,
        }
    }
}

impl Default for PipeScroll {
    fn default() -> (r: Self)
        ensures
            r@ == ScrollState::fresh(),
    {
        PipeScroll {
            position: Position::Following,
            pending: Vec::new(),
            target: None,
            visible: Vec::new(),
            held: false,
            selection: None,
            scrollbar: None,
            scrollbar_gesture: None,
        }
    }
}

impl PipeScroll {
    /// Whether the view follows the live tail.
    pub fn following(&self) -> (r: bool)
        ensures
            r == self@.follows(),
    {
        match self.position {
            Position::Following => self.pending.len() == 0 && self.target.is_none(),
            _ => false,
        }
    }

    /// How many lines above the live tail the next frame is asked to begin,
    /// where the view was not moved otherwise.
    pub fn lines_above_tail(&self) -> (r: Option<usize>)
        ensures
            r == self@.above_tail(),
    {
        match self.position {
            Position::Following => if self.target.is_some() {
                None
            } else if self.pending.len() == 0 {
                Some(0)
            } else if self.pending.len() == 1 && self.pending[0].direction < 0 {
                Some(self.pending[0].lines)
            } else {
                None
            },
            _ => None,
        }
    }

    /// Queue one page move. Navigation is applied against one immutable Logs
    /// snapshot when the next visible window is requested.
    pub fn scroll_page(&mut self, page_rows: u16, direction: isize)
        ensures
            final(self)@ == old(self)@.queued(page_lines(page_rows), direction),
    {
        let page: usize = if page_rows <= 2 {
            1
        } else {
            (page_rows - 1) as usize
        };
        self.scroll_lines(page, direction);
    }

    /// Queue a line move while preserving the order of opposite directions.
    /// Mouse-wheel input supplies repeated events as one line count.
    pub fn scroll_lines(&mut self, lines: usize, direction: isize)
        ensures
            final(self)@ == old(self)@.queued(lines as int, direction),
    {
        if lines == 0 || direction == 0 {
            return;
        }
        if direction > 0 && self.following() {
            return;
        }
        let direction: isize = if direction > 0 {
            1
        } else {
            -1
        };
        let count: usize = self.pending.len();
        if count > 0 && self.pending[count - 1].direction == direction {
            let total: usize = self.pending[count - 1].lines.saturating_add(lines);
            let ghost before = self.pending@;
            self.pending.set(count - 1, ScrollMove { lines: total, direction });
            proof {
                assert(self.pending@ =~= before.drop_last().push(
                    ScrollMove { lines: total, direction },
                ));
            }
            return;
        }
        self.pending.push(ScrollMove { lines, direction });
    }

    /// Center one retained source line where available. A source that is
    /// evicted before the next frame resolves to the retained head.
    pub fn show_source(&mut self, source: LineSource)
        ensures
            final(self)@ == old(self)@.showing(source),
    {
        self.pending.clear();
        self.target = Some(source);
        self.held = true;
        self.selection = None;
    }

    /// Pin the current visible source. Search and selection use this action so
    /// new output can arrive without moving text that the user is reading.
    pub fn pause(&mut self)
        ensures
            final(self)@ == old(self)@.paused(),
    {
        self.position = match self.first_visible_source() {
            Some(source) => Position::Source(source),
            None => Position::Head,
        };
        self.pending.clear();
        self.target = None;
        self.held = true;
    }

    /// Go to the first line.
    pub fn head(&mut self)
        ensures
            final(self)@ == old(self)@.at_head(),
    {
        self.position = Position::Head;
        self.pending.clear();
        self.target = None;
        self.visible.clear();
        self.held = false;
    }

    /// Go to the live tail.
    pub fn follow(&mut self)
        ensures
            final(self)@ == old(self)@.at_tail(),
    {
        self.position = Position::Following;
        self.pending.clear();
        self.target = None;
        self.visible.clear();
        self.held = false;
    }

    /// Start a selection at the character under a pane row and column; `false`
    /// where no retained text is.
    pub fn begin_selection(&mut self, row: usize, column: usize) -> (r: bool)
        ensures
            (final(self)@, r) == old(self)@.selecting(row as int, column as int),
    {
        let point = match self.selection_point(row, column, false) {
            Some(point) => point,
            None => {
                return false;
            },
        };
        self.selection = Some(
            LogSelection {
                anchor: point,
                cursor: point,
                cursor_row: row,
                cursor_column: column,
                dragging: true,
            },
        );
        self.apply_selection();
        true
    }

    /// Move the open end of the selection. The first movement pins the text
    /// that the user is selecting.
    pub fn update_selection(&mut self, row: usize, column: usize) -> (r: bool)
        ensures
            (final(self)@, r) == old(self)@.extending(row as int, column as int),
    {
        let point = match self.selection_point(row, column, true) {
            Some(point) => point,
            None => {
                return false;
            },
        };
        let selection = match self.selection {
            Some(selection) => selection,
            None => {
                return false;
            },
        };
        if same_point(selection.anchor, selection.cursor) {
            self.pause();
        }
        self.selection = Some(
            LogSelection {
                anchor: selection.anchor,
                cursor: point,
                cursor_row: row,
                cursor_column: column,
                dragging: selection.dragging,
            },
        );
        self.apply_selection();
        true
    }

    /// End a selection. An empty one is cleared.
    pub fn finish_selection(&mut self, row: usize, column: usize) -> (r: bool)
        ensures
            (final(self)@, r) == old(self)@.finishing(row as int, column as int),
    {
        if self.selection.is_none() {
            return false;
        }
        self.update_selection(row, column);
        match self.selection {
            None => false,
            Some(selection) => {
                if same_point(selection.anchor, selection.cursor) {
                    return self.clear_selection();
                }
                self.selection = Some(
                    LogSelection {
                        anchor: selection.anchor,
                        cursor: selection.cursor,
                        cursor_row: selection.cursor_row,
                        cursor_column: selection.cursor_column,
                        dragging: false,
                    },
                );
                true
            },
        }
    }

    /// Clear the selection; tell whether there was one.
    pub fn clear_selection(&mut self) -> (r: bool)
        ensures
            (final(self)@, r) == old(self)@.unselected(),
    {
        let changed = self.selection.is_some();
        self.selection = None;
        self.apply_selection();
        changed
    }

    /// Whether text is selected.
    pub fn has_selection(&self) -> (r: bool)
        ensures
            r == (match self@.selection {
                Some(selection) => selection.anchor != selection.cursor,
                None => false,
            }),
    {
        match self.selection {
            Some(selection) => !same_point(selection.anchor, selection.cursor),
            None => false,
        }
    }

    /// The scrollbar of the last frame.
    pub fn scrollbar(&self) -> (r: Option<ConsoleScrollbar>)
        ensures
            r == self@.scrollbar,
    {
        self.scrollbar
    }

    /// Whether the scrollbar is held.
    pub fn scrollbar_gesture_active(&self) -> (r: bool)
        ensures
            r == (self@.gesture is Some),
    {
        self.scrollbar_gesture.is_some()
    }

    fn first_visible_source(&self) -> (r: Option<LineSource>)
        ensures
            r == self@.first_source(),
    {
        if self.visible.len() > 0 {
            self.visible[0].source
        } else {
            None
        }
    }

    fn selection_point(&self, row: usize, column: usize, include_character: bool) -> (r: Option<
        SelectionPoint,
    >)
        ensures
            r == point_at(self@.visible, row as int, column as int, include_character),
    {
        if self.visible.len() == 0 {
            return None;
        }
        let last: usize = self.visible.len() - 1;
        let row: usize = if row <= last {
            row
        } else {
            last
        };
        let line = &self.visible[row];
        match line.source {
            None => None,
            Some(source) => Some(
                SelectionPoint {
                    source,
                    byte: byte_at_column(line.text.as_str(), column, include_character),
                },
            ),
        }
    }

    fn selection_range(&self) -> (r: Option<(SelectionPoint, SelectionPoint)>)
        ensures
            r == (match self@.selection {
                Some(selection) => Some(selection.ends()),
                None => None,
            }),
    {
        match self.selection {
            None => None,
            Some(selection) => {
                let a = selection.anchor;
                let c = selection.cursor;
                if is_source_before(a.source, c.source) || (same_source(a.source, c.source)
                    && a.byte <= c.byte) {
                    Some((a, c))
                } else {
                    Some((c, a))
                }
            },
        }
    }

    fn apply_selection(&mut self)
        ensures
            final(self)@ == old(self)@.marking(),
    {
        let range = self.selection_range();
        let ghost before = self.visible@;
        let mut index: usize = 0;
        while index < self.visible.len()
            invariant
                index <= self.visible.len(),
                self.visible.len() == before.len(),
                self.position == old(self).position,
                self.pending == old(self).pending,
                self.target == old(self).target,
                self.held == old(self).held,
                self.selection == old(self).selection,
                self.scrollbar == old(self).scrollbar,
                self.scrollbar_gesture == old(self).scrollbar_gesture,
                range == (match self.selection {
                    Some(selection) => Some(selection.ends()),
                    None => None,
                }),
                forall|i: int|
                    0 <= i < index ==> #[trigger] self.visible@[i] == marked(
                        before[i],
                        self.selection,
                    ),
                forall|i: int| index <= i < before.len() ==> #[trigger] self.visible@[i] == before[i],
            decreases self.visible.len() - index,
        {
            let mut line = self.visible[index].duplicate();
            line.selection = selected_range(&line, range);
            proof {
                assert(line == marked(before[index as int], self.selection));
            }
            self.visible.set(index, line);
            index = index + 1;
        }
        proof {
            assert(self.visible@ =~= marked_lines(before, self.selection));
        }
    }
}

/// The selected bytes of a line between two ends.
fn selected_range(line: &PipeLine, range: Option<(SelectionPoint, SelectionPoint)>) -> (r: Option<
    (usize, usize),
>)
    ensures
        forall|selection: Option<LogSelection>|
            range == (match selection {
                Some(selection) => Some(selection.ends()),
                None => None,
            }) ==> r == #[trigger] selected_bytes(*line, selection),
{
    let (start, end) = match range {
        Some(ends) => ends,
        None => {
            return None;
        },
    };
    let source = match line.source {
        Some(source) => source,
        None => {
            return None;
        },
    };
    if is_source_before(source, start.source) || is_source_before(end.source, source) {
        return None;
    }
    let size: usize = byte_length(line.text.as_str());
    let from: usize = if same_source(source, start.source) {
        start.byte
    } else {
        0
    };
    let to: usize = if same_source(source, end.source) {
        end.byte
    } else {
        size
    };
    if from >= to {
        return None;
    }
    Some(
        (
            if from <= size {
                from
            } else {
                size
            },
            if to <= size {
                to
            } else {
                size
            },
        ),
    )
}

impl PipeScroll {
    /// Return the visible Logs window. This is the module's main interface:
    /// it owns follow transitions, source anchoring, resize behavior, ordered
    /// navigation, and retention eviction.
    pub fn window<'a>(&'a mut self, output: &RetainedOutput, pane_rows: usize) -> (r: &'a Vec<
        PipeLine,
    >)
        requires
            output.wf(),
        ensures
            final(self)@ == old(self)@.framed(output.lines@, output.truncated, pane_rows as int),
            r@ == final(self)@.visible,
    {
        self.advance(output, pane_rows);
        &self.visible
    }

    fn advance(&mut self, output: &RetainedOutput, pane_rows: usize)
        requires
            output.wf(),
        ensures
            final(self)@ == old(self)@.framed(output.lines@, output.truncated, pane_rows as int),
    {
        if pane_rows == 0 {
            self.visible.clear();
            self.scrollbar = None;
            self.scrollbar_gesture = None;
            return;
        }
        if !self.selection_is_retained(output) {
            self.selection = None;
        }
        match self.target {
            Some(source) => {
                self.target = None;
                self.place_target(output, pane_rows, source);
            },
            None => {
                if self.pending.len() > 0 {
                    self.apply_navigation(output, pane_rows);
                } else {
                    self.refresh(output, pane_rows);
                }
            },
        }
        self.apply_selection();
        self.update_scrollbar(output, pane_rows);
    }

    fn selection_is_retained(&self, output: &RetainedOutput) -> (r: bool)
        requires
            output.wf(),
        ensures
            r == self@.selection_kept(output.lines@),
    {
        match self.selection {
            None => true,
            Some(selection) => output.display_position(Some(selection.anchor.source)).is_some()
                && output.display_position(Some(selection.cursor.source)).is_some(),
        }
    }

    fn update_scrollbar(&mut self, output: &RetainedOutput, pane_rows: usize)
        requires
            output.wf(),
        ensures
            final(self)@ == old(self)@.measured(output.lines@, pane_rows as int),
    {
        self.scrollbar = match output.display_position(self.first_visible_source()) {
            Some((position, content_length)) => if content_length > pane_rows {
                Some(
                    ConsoleScrollbar {
                        position,
                        content_length: content_length.saturating_sub(
                            self.visible.len(),
                        ).saturating_add(1),
                        viewport_length: self.visible.len(),
                    },
                )
            } else {
                None
            },
            None => None,
        };
        if self.scrollbar.is_none() {
            self.scrollbar_gesture = None;
        }
    }

    fn refresh(&mut self, output: &RetainedOutput, pane_rows: usize)
        requires
            output.wf(),
        ensures
            final(self)@ == old(self)@.refreshed(output.lines@, pane_rows as int),
    {
        match self.position {
            Position::Following => {
                self.visible = output.display_lines(pane_rows);
            },
            Position::Head => {
                self.refresh_anchor(output, pane_rows, 0);
            },
            Position::Source(source) => {
                match output.display_position(Some(source)) {
                    Some((start, _)) => {
                        self.refresh_anchor(output, pane_rows, start);
                    },
                    None => {
                        self.position = Position::Head;
                        self.refresh_anchor(output, pane_rows, 0);
                    },
                }
            },
        }
    }

    fn refresh_anchor(&mut self, output: &RetainedOutput, pane_rows: usize, start: usize)
        requires
            output.wf(),
            start <= output.lines.len(),
        ensures
            final(self)@ == old(self)@.anchored(
                output.lines@,
                pane_rows as int,
                start as int,
            ),
    {
        if output.lines.len() - start <= pane_rows && !self.held {
            self.position = Position::Following;
            self.visible = output.display_lines(pane_rows);
            return;
        }
        self.visible = output.lines_at(start, pane_rows);
    }

    fn apply_navigation(&mut self, output: &RetainedOutput, pane_rows: usize)
        requires
            output.wf(),
            0 < pane_rows,
        ensures
            final(self)@ == old(self)@.navigating(
                output.lines@,
                output.truncated,
                pane_rows as int,
            ),
    {
        let total: usize = output.lines.len();
        if total == 0 {
            self.follow();
            return;
        }
        let height: usize = if pane_rows <= total {
            pane_rows
        } else {
            total
        };
        let max_start: usize = total - height;
        let anchored: usize = match self.position {
            Position::Following => max_start,
            Position::Head => 0,
            Position::Source(source) => match output.display_position(Some(source)) {
                Some((position, _)) => position,
                None => 0,
            },
        };
        let first: usize = if anchored <= max_start {
            anchored
        } else {
            max_start
        };
        let mut start: usize = first;
        let mut moved = false;
        let mut index: usize = 0;
        while index < self.pending.len()
            invariant
                index <= self.pending.len(),
                *self == *old(self),
                start <= max_start,
                (start as int, moved) == navigated(
                    self.pending@.take(index as int),
                    first as int,
                    max_start as int,
                ),
            decreases self.pending.len() - index,
        {
            let movement = self.pending[index];
            let previous: usize = start;
            if movement.direction < 0 {
                start = start.saturating_sub(movement.lines);
            } else {
                start = start.saturating_add(movement.lines);
                if start > max_start {
                    start = max_start;
                }
            }
            if start != previous {
                moved = true;
            }
            index = index + 1;
            proof {
                let now = self.pending@.take(index as int);
                assert(now.drop_last() =~= self.pending@.take(index - 1));
                assert(now.last() == movement);
            }
        }
        proof {
            assert(self.pending@.take(index as int) =~= self.pending@);
        }
        self.pending.clear();
        self.place(output, height, start);
        if moved {
            self.extend_drag_selection();
        }
    }

    fn place_target(&mut self, output: &RetainedOutput, pane_rows: usize, source: LineSource)
        requires
            output.wf(),
            0 < pane_rows,
        ensures
            final(self)@ == old(self)@.targeting(
                output.lines@,
                output.truncated,
                pane_rows as int,
                source,
            ),
    {
        let total: usize = output.lines.len();
        if total == 0 {
            self.follow();
            return;
        }
        let index: usize = match output.display_position(Some(source)) {
            Some((index, _)) => index,
            None => {
                self.position = Position::Head;
                self.refresh(output, pane_rows);
                return;
            },
        };
        let height: usize = if pane_rows <= total {
            pane_rows
        } else {
            total
        };
        let max_start: usize = total - height;
        let centered: usize = index.saturating_sub(height / 2);
        let start: usize = if centered <= max_start {
            centered
        } else {
            max_start
        };
        self.place(output, height, start);
    }

    fn place(&mut self, output: &RetainedOutput, height: usize, start: usize)
        requires
            output.wf(),
            output.lines.len() > 0,
            height <= output.lines.len(),
            0 < height,
            start <= output.lines.len() - height,
        ensures
            final(self)@ == old(self)@.placed(
                output.lines@,
                output.truncated,
                height as int,
                start as int,
            ),
    {
        let max_start: usize = output.lines.len() - height;
        if start == max_start && !self.held {
            self.position = Position::Following;
            self.visible = output.display_lines(height);
        } else {
            self.position = if start == 0 && output.truncated {
                Position::Head
            } else {
                match output.display_source_at(start) {
                    Some(source) => Position::Source(source),
                    None => Position::Head,
                }
            };
            self.visible = output.lines_at(start, height);
        }
    }

    fn extend_drag_selection(&mut self)
        ensures
            final(self)@ == old(self)@.dragged(),
    {
        let selection = match self.selection {
            Some(selection) => selection,
            None => {
                return;
            },
        };
        if !selection.dragging || selection.cursor_row >= self.visible.len() {
            return;
        }
        let line = &self.visible[selection.cursor_row];
        if let Some(source) = line.source {
            let cursor = SelectionPoint {
                source,
                byte: byte_at_column(line.text.as_str(), selection.cursor_column, true),
            };
            self.selection = Some(
                LogSelection {
                    anchor: selection.anchor,
                    cursor,
                    cursor_row: selection.cursor_row,
                    cursor_column: selection.cursor_column,
                    dragging: selection.dragging,
                },
            );
        }
    }

    fn set_scrollbar_thumb(
        &mut self,
        output: &RetainedOutput,
        track_rows: usize,
        thumb_start: usize,
    )
        requires
            output.wf(),
        ensures
            final(self)@ == old(self)@.thumbed(
                output.lines@,
                output.truncated,
                track_rows as int,
                thumb_start as int,
            ),
    {
        let scrollbar = match self.scrollbar {
            Some(scrollbar) => scrollbar,
            None => {
                return;
            },
        };
        let position: usize = position_for_thumb(scrollbar, track_rows, thumb_start);
        self.position = if position == 0 && output.truncated {
            Position::Head
        } else {
            match output.display_source_at(position) {
                Some(source) => Position::Source(source),
                None => {
                    return;
                },
            }
        };
        self.pending.clear();
        self.target = None;
        self.refresh(output, scrollbar.viewport_length);
        self.apply_selection();
        self.update_scrollbar(output, scrollbar.viewport_length);
    }

    /// Own pane-scrollbar hit testing and drag mapping. The caller only sends
    /// mouse input and the current immutable Logs snapshot.
    pub fn handle_scrollbar_mouse(
        &mut self,
        mouse: MouseEvent,
        area: Rect,
        output: &RetainedOutput,
    ) -> (r: bool)
        requires
            output.wf(),
        ensures
            (final(self)@, r) == old(self)@.pointed(
                mouse,
                area,
                output.lines@,
                output.truncated,
            ),
    {
        let scrollbar = match self.scrollbar {
            Some(scrollbar) => scrollbar,
            None => {
                return false;
            },
        };
        if area.width <= 1 || area.height == 0 {
            return false;
        }
        let track_rows: usize = area.height as usize;
        match mouse.kind {
            MouseEventKind::Down(MouseButton::Left) => {
                if mouse.column != area.right().saturating_sub(1) || mouse.row < area.y
                    || mouse.row >= area.bottom() {
                    return false;
                }
                let row: usize = (mouse.row - area.y) as usize;
                let (thumb_start, thumb_len) = scrollbar_thumb(scrollbar, track_rows);
                if row >= thumb_start && row < thumb_start + thumb_len {
                    self.scrollbar_gesture = Some(
                        ScrollbarGesture::Thumb { grab_row: row - thumb_start },
                    );
                } else {
                    let centered: usize = row.saturating_sub(thumb_len / 2);
                    self.set_scrollbar_thumb(output, track_rows, centered);
                    self.scrollbar_gesture = Some(ScrollbarGesture::Track);
                }
                true
            },
            MouseEventKind::Drag(MouseButton::Left) => match self.scrollbar_gesture {
                Some(ScrollbarGesture::Thumb { grab_row }) => {
                    let row: usize = area.clamped_row(mouse.row);
                    self.set_scrollbar_thumb(output, track_rows, row.saturating_sub(grab_row));
                    true
                },
                Some(ScrollbarGesture::Track) => true,
                None => false,
            },
            MouseEventKind::Up(MouseButton::Left) => {
                let held = self.scrollbar_gesture.is_some();
                self.scrollbar_gesture = None;
                held
            },
            _ => false,
        }
    }

    /// The selected text of the retained lines, also outside the visible
    /// window. `None` without a selection, and when retention evicted one of
    /// its ends.
    pub fn selected_text(&self, output: &RetainedOutput) -> (r: Option<String>)
        requires
            output.wf(),
        ensures
            (match r {
                Some(text) => Some(text@),
                None => None,
            }) == self@.selected(output.lines@),
    {
        let (start, end) = match self.selection_range() {
            Some(ends) => ends,
            None => {
                return None;
            },
        };
        if same_point(start, end) {
            return None;
        }
        let first: usize = match output.display_position(Some(start.source)) {
            Some((position, _)) => position,
            None => {
                return None;
            },
        };
        let last: usize = match output.display_position(Some(end.source)) {
            Some((position, _)) => position,
            None => {
                return None;
            },
        };
        if last < first {
            return None;
        }
        let ghost lines = output.lines@.subrange(first as int, last + 1);
        let mut parts: Vec<String> = Vec::new();
        let mut index: usize = first;
        while index <= last
            invariant
                first <= index <= last + 1,
                last < output.lines.len(),
                lines == output.lines@.subrange(first as int, last + 1),
                texts(parts@) == selected_parts(lines, start, end).take(index - first),
            decreases last + 1 - index,
        {
            let line = &output.lines[index];
            let size: usize = byte_length(line.text.as_str());
            let from: usize = match line.source {
                Some(source) => if same_source(source, start.source) {
                    start.byte
                } else {
                    0
                },
                None => 0,
            };
            let to: usize = match line.source {
                Some(source) => if same_source(source, end.source) {
                    end.byte
                } else {
                    size
                },
                None => size,
            };
            let from: usize = if from <= size {
                from
            } else {
                size
            };
            let to: usize = if to <= size {
                to
            } else {
                size
            };
            let ghost earlier = parts@;
            let part = slice_between_bytes(line.text.as_str(), from, to);
            parts.push(part);
            index = index + 1;
            proof {
                let all = selected_parts(lines, start, end);
                assert(lines[index - 1 - first] == *line);
                assert(part@ == all[index - 1 - first]);
                assert(texts(parts@) =~= texts(earlier).push(part@));
                assert(all.take(index - first) =~= all.take(index - 1 - first).push(
                    all[index - 1 - first],
                ));
            }
        }
        proof {
            let all = selected_parts(lines, start, end);
            assert(all.take(index - first) =~= all);
        }
        Some(join(&parts, "\n"))
    }
}

} // verus!
