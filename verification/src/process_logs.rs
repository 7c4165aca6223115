//! Per-Process Logs interaction.
//!
//! This module owns the state that must move together for one Process: Logs
//! representation, search, navigation, selection, following, and scrollbar
//! state. Callers send semantic input and receive a frame or an external copy
//! effect. Retained output remains the source of text.

use vstd::prelude::*;

use crate::input::{KeyCode, KeyEvent, MouseButton, MouseEvent, MouseEventKind, Rect};
use crate::log_view::{LogView, LogViewAction, OutputRepresentation, SearchDialogView};
use crate::output::{LineSource, LogMatch, PipeLine, RetainedOutput};
use crate::pipe_scroll::PipeScroll;
use crate::scrollbar::ConsoleScrollbar;
use crate::text::join;

#[allow(unused_imports)]
use crate::log_view::SearchState;
#[allow(unused_imports)]
use crate::pipe_scroll::{page_lines, ScrollState};
#[allow(unused_imports)]
use crate::scrollbar::capped;
#[allow(unused_imports)]
use crate::text::{joined, texts};

verus! {

/// What a Logs key asks of the caller.
#[derive(Clone, Debug, PartialEq, Eq)]
pub enum LogsInput {
    Ignored,
    Changed,
    Copy(String),
}

/// What a Logs key asks of the caller, as mathematical values.
pub enum LogsEffect {
    Ignored,
    Changed,
    Copy(Seq<char>),
}

impl View for LogsInput {
    type V = LogsEffect;

    open spec fn view(&self) -> LogsEffect {
        match *self {
            LogsInput::Ignored => LogsEffect::Ignored,
            LogsInput::Changed => LogsEffect::Changed,
            LogsInput::Copy(text) => LogsEffect::Copy(text@),
        }
    }
}

/// What a navigation key did in a focused Logs pane.
#[derive(Clone, Copy, Debug, PartialEq, Eq, Structural)]
pub enum LogsNavigation {
    Changed,
    Exit,
    Unknown,
}

/// Everything that is drawn of one Logs pane.
#[derive(Clone, Debug, PartialEq, Eq)]
pub struct LogsFrame {
    pub lines: Vec<PipeLine>,
    pub status: Option<String>,
    pub dialog: Option<SearchDialogView>,
    pub editing: bool,
    pub search_active: bool,
    pub following: bool,
    pub has_selection: bool,
    pub scrollbar: Option<ConsoleScrollbar>,
}

/// The Logs state of one Process as mathematical values.
pub struct LogsState {
    pub search: SearchState,
    pub scroll: ScrollState,
}

/// The texts of lines.
pub open spec fn line_texts(lines: Seq<PipeLine>) -> Seq<Seq<char>> {
    lines.map_values(|line: PipeLine| line.text@)
}

/// The bytes of a line's text that a match covers.
pub open spec fn highlight_of(line: PipeLine, current: LogMatch) -> (usize, usize) {
    (
        capped(line.content_offset + current.start) as usize,
        capped(line.content_offset + current.end) as usize,
    )
}

/// The first line of a source, from entry `from` on.
pub open spec fn line_with_source(lines: Seq<PipeLine>, source: LineSource, from: int) -> Option<
    int,
>
    decreases lines.len() - from,
{
    if from < 0 || from >= lines.len() {
        None
    } else if lines[from].source == Some(source) {
        Some(from)
    } else {
        line_with_source(lines, source, from + 1)
    }
}

/// Lines that show the current search match.
pub open spec fn highlighted(lines: Seq<PipeLine>, current: Option<LogMatch>) -> Seq<PipeLine> {
    match current {
        None => lines,
        Some(current) => match line_with_source(lines, (current.sequence, current.line), 0) {
            None => lines,
            Some(index) => lines.update(
                index,
                PipeLine { highlight: Some(highlight_of(lines[index], current)), ..lines[index] },
            ),
        },
    }
}

/// A pointer cell counted from the corner of an area.
pub open spec fn cell_in(mouse: MouseEvent, area: Rect) -> Option<(int, int)> {
    if mouse.row >= area.y && mouse.column >= area.x && mouse.row - area.y < area.height
        && mouse.column - area.x < area.width {
        Some((mouse.row - area.y, mouse.column - area.x))
    } else {
        None
    }
}

impl LogsState {
    /// The Logs at startup.
    pub open spec fn fresh() -> Self {
        LogsState { search: SearchState::fresh(), scroll: ScrollState::fresh() }
    }

    /// The invariant of the Logs.
    pub open spec fn wf(self) -> bool {
        self.search.wf()
    }

    /// A search command carried over to the viewport.
    pub open spec fn acted(
        self,
        action: LogViewAction,
        output: RetainedOutput,
        rows: int,
    ) -> (Self, LogsEffect) {
        match action {
            LogViewAction::Ignored => (self, LogsEffect::Ignored),
            LogViewAction::Changed => (self, LogsEffect::Changed),
            LogViewAction::Pause => (
                LogsState { scroll: self.scroll.unselected().0.paused(), ..self },
                LogsEffect::Changed,
            ),
            LogViewAction::Follow => (
                LogsState { scroll: self.scroll.at_tail(), ..self },
                LogsEffect::Changed,
            ),
            LogViewAction::ShowMatch(found) => (
                LogsState { scroll: self.scroll.showing((found.sequence, found.line)), ..self },
                LogsEffect::Changed,
            ),
            LogViewAction::Copy => match self.scroll.selected(output.lines@) {
                Some(text) => (self, LogsEffect::Copy(text)),
                None => {
                    let framed = self.scroll.framed(output.lines@, output.truncated, rows);
                    (
                        LogsState { scroll: framed, ..self },
                        LogsEffect::Copy(joined(line_texts(framed.visible), "\n"@)),
                    )
                },
            },
        }
    }

    /// The Logs once a key was handled.
    pub open spec fn keyed(
        self,
        key: KeyEvent,
        command_context: bool,
        has_terminal: bool,
        output: RetainedOutput,
        rows: int,
    ) -> (Self, LogsEffect) {
        let (search, action) = self.search.keyed(key, command_context, has_terminal, output);
        LogsState { search, ..self }.acted(action, output, rows)
    }

    /// The Logs once a text was pasted into the search.
    pub open spec fn pasting(self, text: Seq<char>, output: RetainedOutput) -> (Self, bool) {
        let (search, action) = self.search.pasting(text, output);
        let (state, effect) = LogsState { search, ..self }.acted(action, output, 1);
        (state, !(effect is Ignored))
    }

    /// One key of a focused Logs pane.
    pub open spec fn steered(self, key: KeyEvent, page_rows: u16) -> (Self, LogsNavigation) {
        let scroll = self.scroll;
        match key.code {
            KeyCode::Up | KeyCode::Char('k') => (
                LogsState { scroll: scroll.queued(1, (-1) as isize), ..self },
                LogsNavigation::Changed,
            ),
            KeyCode::Down | KeyCode::Char('j') => (
                LogsState { scroll: scroll.queued(1, 1), ..self },
                LogsNavigation::Changed,
            ),
            KeyCode::PageUp => (
                LogsState { scroll: scroll.queued(page_lines(page_rows), (-1) as isize), ..self },
                LogsNavigation::Changed,
            ),
            KeyCode::PageDown => (
                LogsState { scroll: scroll.queued(page_lines(page_rows), 1), ..self },
                LogsNavigation::Changed,
            ),
            KeyCode::Home => (
                LogsState { scroll: scroll.at_head(), ..self },
                LogsNavigation::Changed,
            ),
            KeyCode::End | KeyCode::Char('f') => (
                LogsState { scroll: scroll.at_tail(), ..self },
                LogsNavigation::Changed,
            ),
            KeyCode::Esc => (
                LogsState { scroll: scroll.unselected().0, ..self },
                if scroll.selection is Some {
                    LogsNavigation::Changed
                } else {
                    LogsNavigation::Exit
                },
            ),
            KeyCode::Char('q') => (self, LogsNavigation::Exit),
            _ => (self, LogsNavigation::Unknown),
        }
    }

    /// One mouse event over the Logs pane.
    pub open spec fn pointed(
        self,
        mouse: MouseEvent,
        area: Rect,
        repeats: int,
        output: RetainedOutput,
    ) -> (Self, bool) {
        let (scroll, taken) = self.scroll.pointed(mouse, area, output.lines@, output.truncated);
        let next = LogsState { scroll, ..self };
        let cell = cell_in(mouse, area);
        if taken {
            (next, true)
        } else {
            match mouse.kind {
                MouseEventKind::ScrollUp => (
                    LogsState { scroll: scroll.queued(capped(3 * repeats), (-1) as isize), ..self },
                    true,
                ),
                MouseEventKind::ScrollDown => (
                    LogsState { scroll: scroll.queued(capped(3 * repeats), 1), ..self },
                    true,
                ),
                MouseEventKind::Down(MouseButton::Left) => match cell {
                    Some((row, column)) => (
                        LogsState { scroll: scroll.selecting(row, column).0, ..self },
                        true,
                    ),
                    None => (next, false),
                },
                MouseEventKind::Drag(MouseButton::Left) => match cell {
                    Some((row, column)) => {
                        let (extended, changed) = scroll.extending(row, column);
                        (LogsState { scroll: extended, ..self }, changed)
                    },
                    None => (next, false),
                },
                MouseEventKind::Up(MouseButton::Left) => match cell {
                    Some((row, column)) => {
                        let (finished, changed) = scroll.finishing(row, column);
                        (LogsState { scroll: finished, ..self }, changed)
                    },
                    None => (next, false),
                },
                _ => (next, false),
            }
        }
    }

    /// The next frame.
    pub open spec fn framed(self, output: RetainedOutput, rows: int) -> Self {
        LogsState { scroll: self.scroll.framed(output.lines@, output.truncated, rows), ..self }
    }
}

/// The Logs state of one Process.
#[derive(Clone, Debug)]
pub struct ProcessLogs {
    search: LogView,
    scroll: PipeScroll,
}

impl View for ProcessLogs {
    type V = LogsState;

    closed spec fn view(&self) -> LogsState {
        LogsState { search: self.search@, scroll: self.scroll@ }
    }
}

impl Default for ProcessLogs {
    fn default() -> (r: Self)
        ensures
            r@ == LogsState::fresh(),
            r@.wf(),
    {
        ProcessLogs { search: LogView::default(), scroll: PipeScroll::default() }
    }
}

impl ProcessLogs {
    /// What is shown of the output.
    pub fn representation(&self, has_terminal: bool) -> (r: OutputRepresentation)
        ensures
            r == self@.search.shown(has_terminal),
    {
        self.search.representation(has_terminal)
    }

    /// Whether a query is typed.
    pub fn is_search_editing(&self) -> (r: bool)
        ensures
            r == (self@.search.editor is Some),
    {
        self.search.is_editing()
    }

    /// Search the retained output again.
    pub fn refresh(&mut self, output: &RetainedOutput) -> (r: bool)
        requires
            old(self)@.wf(),
        ensures
            final(self)@.wf(),
            (final(self)@.search, r) == old(self)@.search.refreshed(*output),
            final(self)@.scroll == old(self)@.scroll,
    {
        self.search.refresh(output)
    }

    /// Handle a key of the search.
    pub fn handle_key(
        &mut self,
        key: KeyEvent,
        command_context: bool,
        has_terminal: bool,
        output: &RetainedOutput,
        pane_rows: usize,
    ) -> (r: LogsInput)
        requires
            old(self)@.wf(),
            output.wf(),
        ensures
            final(self)@.wf(),
            (final(self)@, r@) == old(self)@.keyed(
                key,
                command_context,
                has_terminal,
                *output,
                pane_rows as int,
            ),
    {
        let action = self.search.handle_key(key, command_context, has_terminal, output);
        self.apply_search_action(action, output, pane_rows)
    }

    /// Paste into the query that is typed.
    pub fn paste_search(&mut self, text: &str, output: &RetainedOutput) -> (r: bool)
        requires
            old(self)@.wf(),
            output.wf(),
        ensures
            final(self)@.wf(),
            (final(self)@, r) == old(self)@.pasting(text@, *output),
    {
        let action = self.search.paste_search(text, output);
        match self.apply_search_action(action, output, 1) {
            LogsInput::Ignored => false,
            _ => true,
        }
    }

    /// Everything that is drawn of the Logs pane.
    pub fn frame(&mut self, output: &RetainedOutput, pane_rows: usize) -> (r: LogsFrame)
        requires
            old(self)@.wf(),
            output.wf(),
        ensures
            final(self)@.wf(),
            final(self)@ == old(self)@.framed(*output, pane_rows as int),
            r.lines@ == highlighted(
                final(self)@.scroll.visible,
                final(self)@.search.current_match(),
            ),
            (match r.status {
                Some(text) => Some(text@),
                None => None,
            }) == final(self)@.search.status_text(),
            r.dialog is Some <==> final(self)@.search.editor is Some,
            r.dialog is Some ==> r.dialog->0.query@ == final(self)@.search.editor->0
                && r.dialog->0.result@ == final(self)@.search.result_text(),
            r.editing == (final(self)@.search.editor is Some),
            r.search_active == final(self)@.search.has_query(),
            r.following == final(self)@.scroll.follows(),
            r.has_selection == (match final(self)@.scroll.selection {
                Some(selection) => selection.anchor != selection.cursor,
                None => false,
            }),
            r.scrollbar == final(self)@.scroll.scrollbar,
    {
        let mut lines = copy_of(self.scroll.window(output, pane_rows));
        if let Some(current) = self.search.current_match() {
            highlight_line(&mut lines, current);
        }
        LogsFrame {
            lines,
            status: self.search.status(),
            dialog: self.search.dialog(),
            editing: self.search.is_editing(),
            search_active: self.search.has_search(),
            following: self.scroll.following(),
            has_selection: self.scroll.has_selection(),
            scrollbar: self.scroll.scrollbar(),
        }
    }

    /// Scroll by pages.
    pub fn scroll_page(&mut self, page_rows: u16, direction: isize)
        ensures
            final(self)@ == (LogsState {
                scroll: old(self)@.scroll.queued(page_lines(page_rows), direction),
                ..old(self)@
            }),
    {
        self.scroll.scroll_page(page_rows, direction);
    }

    /// How many lines above the live tail the next frame is asked to begin,
    /// where the view was not moved otherwise.
    pub fn lines_above_tail(&self) -> (r: Option<usize>)
        ensures
            r == self@.scroll.above_tail(),
    {
        self.scroll.lines_above_tail()
    }

    /// Go to the live tail.
    pub fn follow(&mut self)
        ensures
            final(self)@ == (LogsState { scroll: old(self)@.scroll.at_tail(), ..old(self)@ }),
    {
        self.scroll.follow();
    }

    /// Handle a key that moves through the Logs.
    pub fn handle_navigation_key(&mut self, key: KeyEvent, page_rows: u16) -> (r: LogsNavigation)
        ensures
            (final(self)@, r) == old(self)@.steered(key, page_rows),
    {
        match key.code {
            KeyCode::Up => self.scroll.scroll_lines(1, -1),
            KeyCode::Char('k') => self.scroll.scroll_lines(1, -1),
            KeyCode::Down => self.scroll.scroll_lines(1, 1),
            KeyCode::Char('j') => self.scroll.scroll_lines(1, 1),
            KeyCode::PageUp => self.scroll.scroll_page(page_rows, -1),
            KeyCode::PageDown => self.scroll.scroll_page(page_rows, 1),
            KeyCode::Home => self.scroll.head(),
            KeyCode::End => self.scroll.follow(),
            KeyCode::Char('f') => self.scroll.follow(),
            KeyCode::Esc => {
                return if self.scroll.clear_selection() {
                    LogsNavigation::Changed
                } else {
                    LogsNavigation::Exit
                };
            },
            KeyCode::Char('q') => {
                return LogsNavigation::Exit;
            },
            _ => {
                return LogsNavigation::Unknown;
            },
        }
        LogsNavigation::Changed
    }

    /// Handle a mouse event on the Logs.
    pub fn handle_mouse(
        &mut self,
        mouse: MouseEvent,
        area: Rect,
        repeats: usize,
        output: &RetainedOutput,
    ) -> (r: bool)
        requires
            output.wf(),
        ensures
            (final(self)@, r) == old(self)@.pointed(mouse, area, repeats as int, *output),
    {
        if self.scroll.handle_scrollbar_mouse(mouse, area, output) {
            return true;
        }
        match mouse.kind {
            MouseEventKind::ScrollUp => {
                self.scroll.scroll_lines(wheel_lines(repeats), -1);
                true
            },
            MouseEventKind::ScrollDown => {
                self.scroll.scroll_lines(wheel_lines(repeats), 1);
                true
            },
            MouseEventKind::Down(MouseButton::Left) => match relative_mouse_position(mouse, area) {
                Some((row, column)) => {
                    self.scroll.begin_selection(row, column);
                    true
                },
                None => false,
            },
            MouseEventKind::Drag(MouseButton::Left) => match relative_mouse_position(mouse, area) {
                Some((row, column)) => self.scroll.update_selection(row, column),
                None => false,
            },
            MouseEventKind::Up(MouseButton::Left) => match relative_mouse_position(mouse, area) {
                Some((row, column)) => self.scroll.finish_selection(row, column),
                None => false,
            },
            _ => false,
        }
    }

    /// Whether the Logs follow the live tail.
    pub fn following(&self) -> (r: bool)
        ensures
            r == self@.scroll.follows(),
    {
        self.scroll.following()
    }

    /// Whether the scrollbar is held.
    pub fn scrollbar_gesture_active(&self) -> (r: bool)
        ensures
            r == (self@.scroll.gesture is Some),
    {
        self.scroll.scrollbar_gesture_active()
    }

    fn apply_search_action(
        &mut self,
        action: LogViewAction,
        output: &RetainedOutput,
        pane_rows: usize,
    ) -> (r: LogsInput)
        requires
            output.wf(),
        ensures
            (final(self)@, r@) == old(self)@.acted(action, *output, pane_rows as int),
    {
        match action {
            LogViewAction::Ignored => LogsInput::Ignored,
            LogViewAction::Changed => LogsInput::Changed,
            LogViewAction::Pause => {
                self.scroll.clear_selection();
                self.scroll.pause();
                LogsInput::Changed
            },
            LogViewAction::Follow => {
                self.scroll.follow();
                LogsInput::Changed
            },
            LogViewAction::ShowMatch(found) => {
                self.scroll.show_source((found.sequence, found.line));
                LogsInput::Changed
            },
            LogViewAction::Copy => {
                let text = match self.scroll.selected_text(output) {
                    Some(text) => text,
                    None => visible_text(self.scroll.window(output, pane_rows)),
                };
                LogsInput::Copy(text)
            },
        }
    }
}

/// The lines of a wheel turn.
fn wheel_lines(repeats: usize) -> (r: usize)
    ensures
        r == capped(3 * repeats),
{
    if repeats <= usize::MAX / 3 {
        3 * repeats
    } else {
        usize::MAX
    }
}

/// A copy of lines in the same order.
fn copy_of(lines: &Vec<PipeLine>) -> (r: Vec<PipeLine>)
    ensures
        r@ == lines@,
{
    let mut copy: Vec<PipeLine> = Vec::new();
    let mut index: usize = 0;
    while index < lines.len()
        invariant
            index <= lines.len(),
            copy@ == lines@.take(index as int),
        decreases lines.len() - index,
    {
        copy.push(lines[index].duplicate());
        index = index + 1;
        proof {
            assert(lines@.take(index as int) =~= lines@.take(index - 1).push(lines@[index - 1]));
        }
    }
    proof {
        assert(lines@.take(index as int) =~= lines@);
    }
    copy
}

/// The texts of lines, one per line.
fn visible_text(lines: &Vec<PipeLine>) -> (r: String)
    ensures
        r@ == joined(line_texts(lines@), "\n"@),
{
    let mut parts: Vec<String> = Vec::new();
    let mut index: usize = 0;
    while index < lines.len()
        invariant
            index <= lines.len(),
            parts.len() == index,
            forall|i: int| 0 <= i < index ==> (#[trigger] parts@[i])@ == lines@[i].text@,
        decreases lines.len() - index,
    {
        parts.push(lines[index].text.clone());
        index = index + 1;
    }
    proof {
        assert(texts(parts@) =~= line_texts(lines@));
    }
    join(&parts, "\n")
}

/// Show the current match in the first line of its source.
fn highlight_line(lines: &mut Vec<PipeLine>, current: LogMatch)
    ensures
        final(lines)@ == highlighted(old(lines)@, Some(current)),
{
    let ghost before = lines@;
    let ghost source = (current.sequence, current.line);
    let mut index: usize = 0;
    while index < lines.len()
        invariant
            index <= lines.len(),
            lines@ == before,
            before == old(lines)@,
            source == (current.sequence, current.line),
            line_with_source(before, source, 0) == line_with_source(before, source, index as int),
        decreases lines.len() - index,
    {
        let here = match lines[index].source {
            Some(found) => found.0 == current.sequence && found.1 == current.line,
            None => false,
        };
        if here {
            let mut line = lines[index].duplicate();
            line.highlight = Some(
                (
                    line.content_offset.saturating_add(current.start),
                    line.content_offset.saturating_add(current.end),
                ),
            );
            proof {
                assert(before[index as int].source == Some(source));
            }
            lines.set(index, line);
            return;
        }
        index = index + 1;
    }
}

/// A pointer cell counted from the corner of an area.
fn relative_mouse_position(mouse: MouseEvent, area: Rect) -> (r: Option<(usize, usize)>)
    ensures
        (match r {
            Some((row, column)) => Some((row as int, column as int)),
            None => None,
        }) == cell_in(mouse, area),
{
    if mouse.row < area.y || mouse.column < area.x {
        return None;
    }
    let row: u16 = mouse.row - area.y;
    let column: u16 = mouse.column - area.x;
    if row < area.height && column < area.width {
        Some((row as usize, column as usize))
    } else {
        None
    }
}

} // verus!
