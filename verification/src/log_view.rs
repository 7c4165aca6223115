//! Logs search and representation state of one Process.
//!
//! This module hides search editing, bounded result refresh, eviction
//! invalidation, match navigation, and the active Terminal/Logs
//! representation. Retained output stays the source of text.

use vstd::prelude::*;

use crate::input::{KeyCode, KeyEvent, KeyEventKind};
use crate::output::{LogMatch, LogSearch, RetainedOutput};
use crate::text::{
    byte_length, characters, decimal_usize, is_control, push_char, utf8_width, without_last,
};

#[allow(unused_imports)]
use crate::output::bounded_search;
#[allow(unused_imports)]
use crate::text::{byte_len, byte_len_push, control_character, decimal_text, utf8_size};

verus! {

/// The most bytes that a search query holds.
pub const SEARCH_QUERY_BYTES: usize = 256;

/// The search field as it is drawn.
#[derive(Clone, Debug, PartialEq, Eq)]
pub struct SearchDialogView {
    pub query: String,
    pub result: String,
}

/// Which view of a Process's output is shown.
#[derive(Clone, Copy, Debug, PartialEq, Eq, Structural)]
pub enum OutputRepresentation {
    Terminal,
    Logs,
}

/// What a Logs command asks of the viewport.
#[derive(Clone, Copy, Debug, PartialEq, Eq, Structural)]
pub enum LogViewAction {
    Ignored,
    Changed,
    Pause,
    ShowMatch(LogMatch),
    Follow,
    Copy,
}

/// Search and representation as mathematical values.
pub struct SearchState {
    pub representation: OutputRepresentation,
    pub editor: Option<Seq<char>>,
    pub origin: Option<OutputRepresentation>,
    pub query: Seq<char>,
    pub matches: Seq<LogMatch>,
    pub limited: bool,
    pub current: Option<int>,
    pub generation: Option<u64>,
}

/// What one search of an output finds.
pub open spec fn found(output: RetainedOutput, query: Seq<char>) -> (Seq<LogMatch>, bool) {
    bounded_search(output.lines@, query, output.search_limit as int)
}

/// A query after text was pasted: control characters are left out, and the
/// first character that would exceed the byte bound ends the paste.
pub open spec fn pasted(query: Seq<char>, text: Seq<char>, from: int) -> Seq<char>
    decreases text.len() - from,
{
    if from < 0 || from >= text.len() {
        query
    } else if control_character(text[from]) {
        pasted(query, text, from + 1)
    } else if byte_len(query) + utf8_size(text[from]) > SEARCH_QUERY_BYTES {
        query
    } else {
        pasted(query.push(text[from]), text, from + 1)
    }
}

/// Whether a key opens the search field.
pub open spec fn opens_search(key: KeyEvent) -> bool {
    key.code == KeyCode::Char('/') || (key.code == KeyCode::Char('f') && key.modifiers.control
        && !key.modifiers.alt)
}

impl SearchState {
    /// The search at startup.
    pub open spec fn fresh() -> Self {
        SearchState {
            representation: OutputRepresentation::Terminal,
            editor: None,
            origin: None,
            query: Seq::empty(),
            matches: Seq::empty(),
            limited: false,
            current: None,
            generation: None,
        }
    }

    /// The query bounds hold, and a current match is one of the matches.
    pub open spec fn wf(self) -> bool {
        &&& byte_len(self.query) <= SEARCH_QUERY_BYTES
        &&& self.editor is Some ==> byte_len(self.editor->0) <= SEARCH_QUERY_BYTES
        &&& self.current is Some ==> 0 <= self.current->0 < self.matches.len()
    }

    /// What is shown of the output.
    pub open spec fn shown(self, has_terminal: bool) -> OutputRepresentation {
        if has_terminal {
            self.representation
        } else {
            OutputRepresentation::Logs
        }
    }

    /// The query that is searched: the one being typed, else the accepted one.
    pub open spec fn active_query(self) -> Seq<char> {
        match self.editor {
            Some(editor) => editor,
            None => self.query,
        }
    }

    /// The match that is marked.
    pub open spec fn current_match(self) -> Option<LogMatch> {
        match self.current {
            Some(index) => Some(self.matches[index]),
            None => None,
        }
    }

    /// A new search for the active query, at its first match.
    pub open spec fn searched(self, output: RetainedOutput) -> (Self, LogViewAction) {
        let (matches, limited) = found(output, self.active_query());
        (
            SearchState {
                generation: Some(output.generation),
                matches,
                limited,
                current: if matches.len() > 0 {
                    Some(0)
                } else {
                    None
                },
                ..self
            },
            if matches.len() > 0 {
                LogViewAction::ShowMatch(matches[0])
            } else {
                LogViewAction::Changed
            },
        )
    }

    /// The search repeated over changed output. A match that no longer exists
    /// is no longer current.
    pub open spec fn refreshed(self, output: RetainedOutput) -> (Self, bool) {
        if self.generation == Some(output.generation) {
            (self, false)
        } else {
            let (matches, limited) = found(output, self.active_query());
            (
                SearchState {
                    generation: Some(output.generation),
                    matches,
                    limited,
                    current: match self.current_match() {
                        Some(wanted) => matches.index_of_first(wanted),
                        None => None,
                    },
                    ..self
                },
                true,
            )
        }
    }

    /// The next or the previous match, around the ends.
    pub open spec fn stepped(self, direction: int, output: RetainedOutput) -> (
        Self,
        LogViewAction,
    ) {
        let fresh = self.refreshed(output).0;
        let count = fresh.matches.len() as int;
        if count == 0 {
            (SearchState { current: None, ..fresh }, LogViewAction::Changed)
        } else {
            let from = match fresh.current {
                Some(index) => index,
                None => if direction < 0 {
                    0
                } else {
                    count - 1
                },
            };
            let to = if direction < 0 {
                if from == 0 {
                    count - 1
                } else {
                    from - 1
                }
            } else if from + 1 == count {
                0
            } else {
                from + 1
            };
            (
                SearchState { current: Some(to), ..fresh },
                LogViewAction::ShowMatch(fresh.matches[to]),
            )
        }
    }

    /// Whether there is something to look for.
    pub open spec fn has_query(self) -> bool {
        self.active_query().len() > 0
    }

    /// The search field closed without accepting what was typed.
    pub open spec fn cancelled(self, output: RetainedOutput) -> (Self, LogViewAction) {
        SearchState {
            editor: None,
            origin: None,
            representation: match self.origin {
                Some(origin) => origin,
                None => self.representation,
            },
            ..self
        }.searched(output)
    }

    /// One key of an open search field.
    pub open spec fn edited(self, key: KeyEvent, output: RetainedOutput) -> (
        Self,
        LogViewAction,
    ) {
        let editor = self.editor->0;
        match key.code {
            KeyCode::Esc => self.cancelled(output),
            KeyCode::Enter => SearchState {
                editor: None,
                origin: None,
                query: editor,
                ..self
            }.searched(output),
            KeyCode::Backspace => SearchState {
                editor: Some(
                    if editor.len() == 0 {
                        editor
                    } else {
                        editor.drop_last()
                    },
                ),
                ..self
            }.searched(output),
            KeyCode::Char(character) => if character == 'c' && key.modifiers.control {
                self.cancelled(output)
            } else if key.modifiers.commands() {
                (self, LogViewAction::Changed)
            } else {
                SearchState {
                    editor: Some(
                        if byte_len(editor) + utf8_size(character) <= SEARCH_QUERY_BYTES {
                            editor.push(character)
                        } else {
                            editor
                        },
                    ),
                    ..self
                }.searched(output)
            },
            _ => (self, LogViewAction::Changed),
        }
    }

    /// One key outside the search field.
    pub open spec fn commanded(
        self,
        key: KeyEvent,
        command_context: bool,
        has_terminal: bool,
        output: RetainedOutput,
    ) -> (Self, LogViewAction) {
        let logs_active = self.shown(has_terminal) == OutputRepresentation::Logs;
        let backwards = key.modifiers.shift;
        if opens_search(key) && (command_context || logs_active) {
            (
                SearchState {
                    origin: Some(self.shown(has_terminal)),
                    representation: OutputRepresentation::Logs,
                    editor: Some(Seq::empty()),
                    matches: Seq::empty(),
                    limited: false,
                    current: None,
                    ..self
                },
                LogViewAction::Pause,
            )
        } else if (!command_context && !logs_active) || key.modifiers.commands() {
            (self, LogViewAction::Ignored)
        } else if key.code == KeyCode::Char('l') && has_terminal {
            (
                SearchState {
                    representation: match self.representation {
                        OutputRepresentation::Terminal => OutputRepresentation::Logs,
                        OutputRepresentation::Logs => OutputRepresentation::Terminal,
                    },
                    ..self
                },
                LogViewAction::Changed,
            )
        } else if !logs_active {
            (self, LogViewAction::Ignored)
        } else if (key.code == KeyCode::Enter || key.code == KeyCode::F(3)) && self.has_query() {
            self.stepped(
                if backwards {
                    -1
                } else {
                    1
                },
                output,
            )
        } else if key.code == KeyCode::Char('n') {
            self.stepped(1, output)
        } else if key.code == KeyCode::Char('N') {
            self.stepped(-1, output)
        } else if key.code == KeyCode::Char('f') {
            (SearchState { current: None, ..self }, LogViewAction::Follow)
        } else if key.code == KeyCode::Char('c') || key.code == KeyCode::Char('y') {
            (self, LogViewAction::Copy)
        } else {
            (self, LogViewAction::Ignored)
        }
    }

    /// One key.
    pub open spec fn keyed(
        self,
        key: KeyEvent,
        command_context: bool,
        has_terminal: bool,
        output: RetainedOutput,
    ) -> (Self, LogViewAction) {
        if key.kind != KeyEventKind::Press {
            (
                self,
                if self.editor is Some {
                    LogViewAction::Changed
                } else {
                    LogViewAction::Ignored
                },
            )
        } else if self.editor is Some {
            self.edited(key, output)
        } else {
            self.commanded(key, command_context, has_terminal, output)
        }
    }

    /// A paste into an open search field.
    pub open spec fn pasting(self, text: Seq<char>, output: RetainedOutput) -> (
        Self,
        LogViewAction,
    ) {
        match self.editor {
            None => (self, LogViewAction::Ignored),
            Some(editor) => SearchState {
                editor: Some(pasted(editor, text, 0)),
                ..self
            }.searched(output),
        }
    }

    /// The words for the search result.
    pub open spec fn result_text(self) -> Seq<char> {
        if self.active_query().len() == 0 {
            "Type a word or phrase"@
        } else if self.matches.len() == 0 {
            "No matches"@
        } else {
            "Match "@ + decimal_text(
                match self.current {
                    Some(index) => (index + 1) as nat,
                    None => 1,
                },
            ) + " of "@ + decimal_text(self.matches.len()) + (if self.limited {
                "+"@
            } else {
                ""@
            })
        }
    }

    /// The status line of the search.
    pub open spec fn status_text(self) -> Option<Seq<char>> {
        match self.editor {
            Some(editor) => Some("Search: "@ + editor + "_"@),
            None => if self.query.len() == 0 {
                None
            } else {
                Some("Search: "@ + self.query + " · "@ + self.result_text())
            },
        }
    }
}

/// Search and representation state of one Process's output.
#[derive(Clone, Debug)]
pub struct LogView {
    representation: OutputRepresentation,
    editor: Option<String>,
    search_origin: Option<OutputRepresentation>,
    query: String,
    search: LogSearch,
    current: Option<usize>,
    generation: Option<u64>,
}

impl View for LogView {
    type V = SearchState;

    closed spec fn view(&self) -> SearchState {
        SearchState {
            representation: self.representation,
            editor: match self.editor {
                Some(editor) => Some(editor@),
                None => None,
            },
            origin: self.search_origin,
            query: self.query@,
            matches: self.search.matches@,
            limited: self.search.limited,
            current: match self.current {
                Some(index) => Some(index as int),
                None => None,
            },
            generation: self.generation,
        }
    }
}

impl Default for LogView {
    fn default() -> (r: Self)
        ensures
            r@ == SearchState::fresh(),
            r@.wf(),
    {
        LogView {
            representation: OutputRepresentation::Terminal,
            editor: None,
            search_origin: None,
            query: String::new(),
            search: LogSearch::default(),
            current: None,
            generation: None,
        }
    }
}

impl LogView {
    /// What is shown of the output.
    pub fn representation(&self, has_terminal: bool) -> (r: OutputRepresentation)
        ensures
            r == self@.shown(has_terminal),
    {
        if has_terminal {
            self.representation
        } else {
            OutputRepresentation::Logs
        }
    }

    /// Whether a query is typed.
    pub fn is_editing(&self) -> (r: bool)
        ensures
            r == (self@.editor is Some),
    {
        self.editor.is_some()
    }

    /// The match that is marked.
    pub fn current_match(&self) -> (r: Option<LogMatch>)
        requires
            self@.wf(),
        ensures
            r == self@.current_match(),
    {
        match self.current {
            Some(index) => Some(self.search.matches[index]),
            None => None,
        }
    }

    /// Whether there is something to look for.
    pub fn has_search(&self) -> (r: bool)
        ensures
            r == self@.has_query(),
    {
        !self.active().is_empty()
    }

    fn active(&self) -> (r: &str)
        ensures
            r@ == self@.active_query(),
    {
        match &self.editor {
            Some(editor) => editor.as_str(),
            None => self.query.as_str(),
        }
    }

    /// The search dialog, while a query is typed.
    pub fn dialog(&self) -> (r: Option<SearchDialogView>)
        requires
            self@.wf(),
        ensures
            match self@.editor {
                Some(editor) => {
                    &&& r is Some
                    &&& r->0.query@ == editor
                    &&& r->0.result@ == self@.result_text()
                },
                None => r is None,
            },
    {
        match &self.editor {
            Some(editor) => Some(
                SearchDialogView { query: editor.clone(), result: self.match_result() },
            ),
            None => None,
        }
    }

    /// Append a host paste to the active search field. Control characters do
    /// not become part of a literal query, and the same byte bound as typed
    /// input applies without splitting UTF-8 characters.
    pub fn paste_search(&mut self, text: &str, output: &RetainedOutput) -> (r: LogViewAction)
        requires
            old(self)@.wf(),
        ensures
            final(self)@.wf(),
            (final(self)@, r) == old(self)@.pasting(text@, *output),
    {
        let mut editor = match &self.editor {
            Some(editor) => editor.clone(),
            None => {
                return LogViewAction::Ignored;
            },
        };
        let ghost start = editor@;
        let all = characters(text);
        let mut size: usize = byte_length(editor.as_str());
        let mut index: usize = 0;
        let mut open = true;
        while open && index < all.len()
            invariant
                index <= all.len(),
                all@ == text@,
                size == byte_len(editor@),
                size <= SEARCH_QUERY_BYTES,
                pasted(start, text@, 0) == (if open {
                    pasted(editor@, text@, index as int)
                } else {
                    editor@
                }),
            decreases all.len() - index,
        {
            let character = all[index];
            if !is_control(character) {
                let width: usize = utf8_width(character);
                if size + width > SEARCH_QUERY_BYTES {
                    open = false;
                } else {
                    proof {
                        byte_len_push(editor@, character);
                    }
                    push_char(&mut editor, character);
                    size = size + width;
                }
            }
            index = index + 1;
        }
        self.editor = Some(editor);
        self.rebuild_current_query(output)
    }

    /// Handle one Logs command. Process-list focus always owns command keys.
    /// Logs focus also owns them because there is no child input to protect.
    pub fn handle_key(
        &mut self,
        key: KeyEvent,
        command_context: bool,
        has_terminal: bool,
        output: &RetainedOutput,
    ) -> (r: LogViewAction)
        requires
            old(self)@.wf(),
        ensures
            final(self)@.wf(),
            (final(self)@, r) == old(self)@.keyed(key, command_context, has_terminal, *output),
    {
        if key.kind != KeyEventKind::Press {
            return if self.editor.is_some() {
                LogViewAction::Changed
            } else {
                LogViewAction::Ignored
            };
        }
        if self.editor.is_some() {
            return self.edit_search(key, output);
        }
        let logs_active = self.representation(has_terminal) == OutputRepresentation::Logs;
        let opens = key.code == KeyCode::Char('/') || (key.code == KeyCode::Char('f')
            && key.modifiers.control && !key.modifiers.alt);
        if opens && (command_context || logs_active) {
            self.search_origin = Some(self.representation(has_terminal));
            self.representation = OutputRepresentation::Logs;
            self.editor = Some(String::new());
            self.search = LogSearch::default();
            self.current = None;
            return LogViewAction::Pause;
        }
        if (!command_context && !logs_active) || key.modifiers.control || key.modifiers.alt {
            return LogViewAction::Ignored;
        }
        if key.code == KeyCode::Char('l') && has_terminal {
            self.representation = match self.representation {
                OutputRepresentation::Terminal => OutputRepresentation::Logs,
                OutputRepresentation::Logs => OutputRepresentation::Terminal,
            };
            return LogViewAction::Changed;
        }
        if !logs_active {
            return LogViewAction::Ignored;
        }
        if (key.code == KeyCode::Enter || key.code == KeyCode::F(3)) && self.has_search() {
            return self.move_match(key.modifiers.shift, output);
        }
        match key.code {
            KeyCode::Char('n') => self.move_match(false, output),
            KeyCode::Char('N') => self.move_match(true, output),
            KeyCode::Char('f') => {
                self.current = None;
                LogViewAction::Follow
            },
            KeyCode::Char('c') => LogViewAction::Copy,
            KeyCode::Char('y') => LogViewAction::Copy,
            _ => LogViewAction::Ignored,
        }
    }

    /// Search again when the output changed.
    pub fn refresh(&mut self, output: &RetainedOutput) -> (r: bool)
        requires
            old(self)@.wf(),
        ensures
            final(self)@.wf(),
            (final(self)@, r) == old(self)@.refreshed(*output),
    {
        if let Some(generation) = self.generation {
            if generation == output.generation {
                return false;
            }
        }
        let previous = self.current_match();
        self.generation = Some(output.generation);
        self.search = output.search(self.active());
        self.current = match previous {
            Some(wanted) => position_of_match(&self.search.matches, wanted),
            None => None,
        };
        true
    }

    /// The status of the search.
    pub fn status(&self) -> (r: Option<String>)
        requires
            self@.wf(),
        ensures
            (match r {
                Some(text) => Some(text@),
                None => None,
            }) == self@.status_text(),
    {
        if let Some(editor) = &self.editor {
            let mut status = String::from_str("Search: ");
            status.append(editor.as_str());
            status.append("_");
            return Some(status);
        }
        if self.query.as_str().is_empty() {
            return None;
        }
        let mut status = String::from_str("Search: ");
        status.append(self.query.as_str());
        status.append(" · ");
        status.append(self.match_result().as_str());
        Some(status)
    }

    fn match_result(&self) -> (r: String)
        requires
            self@.wf(),
        ensures
            r@ == self@.result_text(),
    {
        if self.active().is_empty() {
            return "Type a word or phrase".to_owned();
        }
        let count: usize = self.search.matches.len();
        if count == 0 {
            return "No matches".to_owned();
        }
        let position: usize = match self.current {
            Some(index) => index + 1,
            None => 1,
        };
        let mut result = String::from_str("Match ");
        result.append(decimal_usize(position).as_str());
        result.append(" of ");
        result.append(decimal_usize(count).as_str());
        result.append(
            if self.search.limited {
                "+"
            } else {
                ""
            },
        );
        result
    }

    fn edit_search(&mut self, key: KeyEvent, output: &RetainedOutput) -> (r: LogViewAction)
        requires
            old(self)@.wf(),
            old(self)@.editor is Some,
        ensures
            final(self)@.wf(),
            (final(self)@, r) == old(self)@.edited(key, *output),
    {
        let editor = match &self.editor {
            Some(editor) => editor.clone(),
            None => String::new(),
        };
        match key.code {
            KeyCode::Esc => self.cancel_search_edit(output),
            KeyCode::Enter => {
                self.query = editor;
                self.editor = None;
                self.search_origin = None;
                self.rebuild_current_query(output)
            },
            KeyCode::Backspace => {
                let shorter = without_last(editor.as_str());
                self.editor = Some(shorter);
                self.rebuild_current_query(output)
            },
            KeyCode::Char(character) => {
                if character == 'c' && key.modifiers.control {
                    return self.cancel_search_edit(output);
                }
                if key.modifiers.control || key.modifiers.alt {
                    return LogViewAction::Changed;
                }
                let mut longer = editor;
                if byte_length(longer.as_str()) + utf8_width(character) <= SEARCH_QUERY_BYTES {
                    proof {
                        byte_len_push(longer@, character);
                    }
                    push_char(&mut longer, character);
                }
                self.editor = Some(longer);
                self.rebuild_current_query(output)
            },
            _ => LogViewAction::Changed,
        }
    }

    fn cancel_search_edit(&mut self, output: &RetainedOutput) -> (r: LogViewAction)
        requires
            old(self)@.wf(),
        ensures
            final(self)@.wf(),
            (final(self)@, r) == old(self)@.cancelled(*output),
    {
        self.editor = None;
        if let Some(origin) = self.search_origin {
            self.representation = origin;
        }
        self.search_origin = None;
        self.rebuild_current_query(output)
    }

    fn rebuild_current_query(&mut self, output: &RetainedOutput) -> (r: LogViewAction)
        requires
            byte_len(old(self)@.query) <= SEARCH_QUERY_BYTES,
            old(self)@.editor is Some ==> byte_len(old(self)@.editor->0) <= SEARCH_QUERY_BYTES,
        ensures
            final(self)@.wf(),
            (final(self)@, r) == old(self)@.searched(*output),
    {
        self.generation = Some(output.generation);
        self.search = output.search(self.active());
        if self.search.matches.len() == 0 {
            self.current = None;
            LogViewAction::Changed
        } else {
            self.current = Some(0);
            LogViewAction::ShowMatch(self.search.matches[0])
        }
    }

    fn move_match(&mut self, backwards: bool, output: &RetainedOutput) -> (r: LogViewAction)
        requires
            old(self)@.wf(),
        ensures
            final(self)@.wf(),
            (final(self)@, r) == old(self)@.stepped(
                if backwards {
                    -1
                } else {
                    1
                },
                *output,
            ),
    {
        self.refresh(output);
        let count: usize = self.search.matches.len();
        if count == 0 {
            self.current = None;
            return LogViewAction::Changed;
        }
        let from: usize = match self.current {
            Some(index) => index,
            None => if backwards {
                0
            } else {
                count - 1
            },
        };
        let to: usize = if backwards {
            if from == 0 {
                count - 1
            } else {
                from - 1
            }
        } else if from + 1 == count {
            0
        } else {
            from + 1
        };
        self.current = Some(to);
        LogViewAction::ShowMatch(self.search.matches[to])
    }
}

/// The first place of a match.
fn position_of_match(matches: &Vec<LogMatch>, wanted: LogMatch) -> (r: Option<usize>)
    ensures
        (match r {
            Some(index) => Some(index as int),
            None => None,
        }) == matches@.index_of_first(wanted),
        r is Some ==> r->0 < matches.len(),
{
    proof {
        matches@.index_of_first_ensures(wanted);
    }
    let mut index: usize = 0;
    while index < matches.len()
        invariant
            index <= matches.len(),
            forall|i: int| 0 <= i < index ==> matches@[i] != wanted,
            matches@.contains(wanted) ==> {
                &&& matches@.index_of_first(wanted) is Some
                &&& 0 <= matches@.index_of_first(wanted)->0 < matches@.len()
                &&& matches@[matches@.index_of_first(wanted)->0] == wanted
                &&& forall|j: int|
                    0 <= j < matches@.index_of_first(wanted)->0 ==> matches@[j] != wanted
            },
            !matches@.contains(wanted) ==> matches@.index_of_first(wanted) is None,
        decreases matches.len() - index,
    {
        if matches[index] == wanted {
            proof {
                assert(matches@[index as int] == wanted);
            }
            return Some(index);
        }
        index = index + 1;
    }
    None
}

/// Whatever is typed or pasted, a query stays within its byte bound.
pub proof fn query_stays_bounded(
    state: SearchState,
    key: KeyEvent,
    command_context: bool,
    has_terminal: bool,
    output: RetainedOutput,
    text: Seq<char>,
)
    requires
        state.wf(),
    ensures
        state.keyed(key, command_context, has_terminal, output).0.wf(),
        state.pasting(text, output).0.wf(),
{
    if let Some(editor) = state.editor {
        if let KeyCode::Char(character) = key.code {
            byte_len_push(editor, character);
        }
        paste_stays_bounded(editor, text, 0);
    }
    if let Some(wanted) = state.current_match() {
        found(output, state.active_query()).0.index_of_first_ensures(wanted);
    }
}

proof fn paste_stays_bounded(query: Seq<char>, text: Seq<char>, from: int)
    requires
        byte_len(query) <= SEARCH_QUERY_BYTES,
        0 <= from,
    ensures
        byte_len(pasted(query, text, from)) <= SEARCH_QUERY_BYTES,
    decreases text.len() - from,
{
    if from < text.len() {
        byte_len_push(query, text[from]);
        if control_character(text[from]) {
            paste_stays_bounded(query, text, from + 1);
        } else if byte_len(query) + utf8_size(text[from]) <= SEARCH_QUERY_BYTES {
            paste_stays_bounded(query.push(text[from]), text, from + 1);
        }
    }
}

/// Over unchanged output with a match shown, a step forward and a step back
/// return to the same match.
pub proof fn match_navigation_is_reversible(state: SearchState, output: RetainedOutput)
    requires
        state.wf(),
        state.generation == Some(output.generation),
        state.current is Some,
    ensures
        state.stepped(1, output).0.stepped(-1, output).0 == state,
        state.stepped(-1, output).0.stepped(1, output).0 == state,
{
}

/// Cancelling a search restores the view and the accepted query from which it
/// was opened.
pub proof fn cancel_restores_the_view(
    state: SearchState,
    key: KeyEvent,
    command_context: bool,
    has_terminal: bool,
    output: RetainedOutput,
    escape: KeyEvent,
)
    requires
        state.editor is None,
        key.kind == KeyEventKind::Press,
        opens_search(key),
        command_context || state.shown(has_terminal) == OutputRepresentation::Logs,
        escape.kind == KeyEventKind::Press,
        escape.code == KeyCode::Esc,
    ensures
        ({
            let opened = state.keyed(key, command_context, has_terminal, output).0;
            let closed = opened.keyed(escape, command_context, has_terminal, output).0;
            &&& opened.editor == Some(Seq::<char>::empty())
            &&& closed.editor is None
            &&& closed.query == state.query
            &&& closed.shown(has_terminal) == state.shown(has_terminal)
        }),
{
}

} // verus!
