//! What a search of Logs finds, and how its keys move through it.

use vstd::prelude::*;

#[allow(unused_imports)]
use crate::input::{KeyCode, KeyEvent, KeyEventKind};
#[allow(unused_imports)]
use crate::log_view::{
    found, pasted, LogViewAction, OutputRepresentation, SearchState, SEARCH_QUERY_BYTES,
};
#[allow(unused_imports)]
use crate::output::{
    all_matches, bounded_search, line_matches, match_at, occurrences, LogMatch, PipeLine,
    RetainedOutput,
};
#[allow(unused_imports)]
use crate::process_logs::{LogsEffect, LogsNavigation, LogsState};
#[allow(unused_imports)]
use crate::text::{
    byte_len, byte_start, byte_start_monotone, control_character, decimal_text, index_at_byte,
    utf8_size, word_at,
};

verus! {

/// Whether a word stands in the output of a line, from a character on.
pub open spec fn occurs(line: PipeLine, word: Seq<char>, at: int) -> bool {
    &&& 0 <= at
    &&& at + word.len() <= line.text@.len()
    &&& line.text@.subrange(at, at + word.len()) == word
    &&& line.content_offset <= byte_len(line.text@.take(at))
}

/// Whether a match marks the word at a character of a line.
pub open spec fn marks(found: LogMatch, line: PipeLine, word: Seq<char>, at: int) -> bool {
    &&& occurs(line, word, at)
    &&& line.source == Some((found.sequence, found.line))
    &&& found.start + line.content_offset == byte_len(line.text@.take(at))
    &&& found.end + line.content_offset == byte_len(line.text@.take((at + word.len()) as int))
}

proof fn first_index_is_early(text: Seq<char>, byte: int, at: int, from: int)
    requires
        0 <= from <= at < text.len(),
        byte <= byte_start(text, at),
    ensures
        from <= index_at_byte(text, byte, from) <= at,
    decreases at - from,
{
    if byte_start(text, from) < byte {
        first_index_is_early(text, byte, at, from + 1);
    }
}

proof fn index_is_behind(text: Seq<char>, byte: int, from: int)
    requires
        0 <= from,
    ensures
        ({
            let index = index_at_byte(text, byte, from);
            &&& index < text.len() ==> byte <= byte_start(text, index)
            &&& 0 <= index <= text.len()
        }),
    decreases text.len() - from,
{
    if from < text.len() && byte_start(text, from) < byte {
        index_is_behind(text, byte, from + 1);
    }
}

proof fn occurrences_are_real(text: Seq<char>, word: Seq<char>, from: int)
    requires
        0 <= from,
    ensures
        forall|k: int|
            #![trigger occurrences(text, word, from)[k]]
            0 <= k < occurrences(text, word, from).len() ==> {
                let at = occurrences(text, word, from)[k];
                &&& word.len() > 0
                &&& from <= at
                &&& at + word.len() <= text.len()
                &&& text.subrange(at, at + word.len()) == word
            },
        forall|j: int, k: int|
            #![trigger occurrences(text, word, from)[j], occurrences(text, word, from)[k]]
            0 <= j < k < occurrences(text, word, from).len() ==> occurrences(text, word, from)[j]
                + word.len() <= occurrences(text, word, from)[k],
    decreases text.len() - from,
{
    if from < text.len() && word.len() > 0 {
        if word_at(text, word, from) {
            let rest = occurrences(text, word, from + word.len());
            let all = occurrences(text, word, from);
            occurrences_are_real(text, word, from + word.len());
            assert(all == seq![from] + rest);
            assert forall|k: int| 0 <= k < all.len() implies {
                let at = #[trigger] all[k];
                &&& word.len() > 0
                &&& from <= at
                &&& at + word.len() <= text.len()
                &&& text.subrange(at, at + word.len()) == word
            } by {
                if k > 0 {
                    assert(all[k] == rest[k - 1]);
                }
            }
            assert forall|j: int, k: int| 0 <= j < k < all.len() implies #[trigger] all[j]
                + word.len() <= #[trigger] all[k] by {
                assert(all[k] == rest[k - 1]);
                if j > 0 {
                    assert(all[j] == rest[j - 1]);
                }
            }
        } else {
            occurrences_are_real(text, word, from + 1);
            assert(occurrences(text, word, from) == occurrences(text, word, from + 1));
        }
    } else {
        assert(occurrences(text, word, from).len() == 0);
    }
}

proof fn occurrence_is_covered(text: Seq<char>, word: Seq<char>, from: int, at: int) -> (k: int)
    requires
        0 <= from <= at,
        word.len() > 0,
        at + word.len() <= text.len(),
        text.subrange(at, at + word.len()) == word,
    ensures
        0 <= k < occurrences(text, word, from).len(),
        occurrences(text, word, from)[k] <= at < occurrences(text, word, from)[k] + word.len(),
    decreases text.len() - from,
{
    if word_at(text, word, from) {
        if at < from + word.len() {
            0
        } else {
            let j = occurrence_is_covered(text, word, from + word.len(), at);
            assert(occurrences(text, word, from)[j + 1] == occurrences(
                text,
                word,
                from + word.len(),
            )[j]);
            j + 1
        }
    } else {
        occurrence_is_covered(text, word, from + 1, at)
    }
}

proof fn line_match_marks(line: PipeLine, word: Seq<char>, k: int)
    requires
        byte_len(line.text@) <= usize::MAX,
        0 <= k < line_matches(line, word).len(),
    ensures
        marks(
            line_matches(line, word)[k],
            line,
            word,
            occurrences(
                line.text@,
                word,
                index_at_byte(line.text@, line.content_offset as int, 0),
            )[k],
        ),
{
    let text = line.text@;
    let first = index_at_byte(text, line.content_offset as int, 0);
    index_is_behind(text, line.content_offset as int, 0);
    occurrences_are_real(text, word, first);
    let at = occurrences(text, word, first)[k];
    byte_start_monotone(text, first, at);
    byte_start_monotone(text, at, (at + word.len()) as int);
}

/// Whether a match marks a word in one of the lines.
pub open spec fn marks_a_line(found: LogMatch, lines: Seq<PipeLine>, word: Seq<char>) -> bool {
    exists|i: int, at: int|
        0 <= i < lines.len() && #[trigger] marks(found, lines[i], word, at)
}

/// Every match that a search finds marks the word, letter for letter, in the
/// output of a line.
pub proof fn matches_mark_the_word(lines: Seq<PipeLine>, word: Seq<char>, k: int)
    requires
        forall|i: int| 0 <= i < lines.len() ==> byte_len((#[trigger] lines[i]).text@) <= usize::MAX,
        0 <= k < all_matches(lines, word).len(),
    ensures
        marks_a_line(all_matches(lines, word)[k], lines, word),
    decreases lines.len(),
{
    let before = lines.drop_last();
    let earlier = all_matches(before, word);
    if k < earlier.len() {
        matches_mark_the_word(before, word, k);
        let (i, at) = choose|i: int, at: int|
            0 <= i < before.len() && #[trigger] marks(earlier[k], before[i], word, at);
        assert(marks(earlier[k], lines[i], word, at));
    } else {
        let line = lines.last();
        line_match_marks(line, word, k - earlier.len());
        let first = index_at_byte(line.text@, line.content_offset as int, 0);
        let at = occurrences(line.text@, word, first)[k - earlier.len()];
        assert(marks(all_matches(lines, word)[k], lines[lines.len() - 1], word, at));
    }
}

proof fn line_matches_are_among_all(lines: Seq<PipeLine>, word: Seq<char>, i: int, j: int) -> (k: int)
    requires
        0 <= i < lines.len(),
        0 <= j < line_matches(lines[i], word).len(),
    ensures
        0 <= k < all_matches(lines, word).len(),
        all_matches(lines, word)[k] == line_matches(lines[i], word)[j],
    decreases lines.len(),
{
    let earlier = all_matches(lines.drop_last(), word);
    if i < lines.len() - 1 {
        line_matches_are_among_all(lines.drop_last(), word, i, j)
    } else {
        earlier.len() + j
    }
}

/// A search without a limit misses nothing: wherever the word stands in the
/// output of a line, a match covers its first letter.
pub proof fn no_occurrence_is_missed(lines: Seq<PipeLine>, word: Seq<char>, i: int, at: int)
    requires
        0 <= i < lines.len(),
        byte_len(lines[i].text@) <= usize::MAX,
        lines[i].source is Some,
        word.len() > 0,
        occurs(lines[i], word, at),
    ensures
        exists|k: int, place: int|
            {
                &&& 0 <= k < all_matches(lines, word).len()
                &&& #[trigger] marks(all_matches(lines, word)[k], lines[i], word, place)
                &&& place <= at < place + word.len()
            },
{
    let line = lines[i];
    let text = line.text@;
    let offset = line.content_offset as int;
    first_index_is_early(text, offset, at, 0);
    let first = index_at_byte(text, offset, 0);
    let j = occurrence_is_covered(text, word, first, at);
    line_match_marks(line, word, j);
    let k = line_matches_are_among_all(lines, word, i, j);
    assert(marks(all_matches(lines, word)[k], lines[i], word, occurrences(text, word, first)[j]));
}

/// What a search reports is what it finds, from the oldest match on, and it
/// says that it left matches out exactly where it did.
pub proof fn reported_matches_are_the_oldest(output: RetainedOutput, word: Seq<char>, k: int)
    requires
        0 <= k < found(output, word).0.len(),
    ensures
        found(output, word).0[k] == all_matches(output.lines@, word)[k],
        k < output.search_limit,
        found(output, word).1 <==> found(output, word).0.len() < all_matches(
            output.lines@,
            word,
        ).len(),
        found(output, word).0.len() == all_matches(output.lines@, word).len() || found(
            output,
            word,
        ).0.len() == output.search_limit,
{
}

/// Whether a key is pressed without Control and Alt.
pub open spec fn plainly_pressed(key: KeyEvent, code: KeyCode) -> bool {
    key.kind == KeyEventKind::Press && key.code == code && !key.modifiers.control
        && !key.modifiers.alt
}

/// Whether Logs take the keys: there is no terminal, or Logs are shown in its
/// place.
pub open spec fn logs_are_shown(state: SearchState, has_terminal: bool) -> bool {
    !has_terminal || state.representation == OutputRepresentation::Logs
}

/// Over unchanged output with a match shown, `n` shows the next match and `N`
/// the one before, round the ends; so do Enter and F3 without and with Shift.
/// Nothing else of the search changes.
pub proof fn match_keys_go_round(
    state: SearchState,
    key: KeyEvent,
    command_context: bool,
    has_terminal: bool,
    output: RetainedOutput,
    at: int,
)
    requires
        state.editor is None,
        state.generation == Some(output.generation),
        0 <= at < state.matches.len(),
        state.current == Some(at),
        logs_are_shown(state, has_terminal),
    ensures
        ({
            let count = state.matches.len() as int;
            let next = (at + 1) % count;
            let last = (at + count - 1) % count;
            let (after, action) = state.keyed(key, command_context, has_terminal, output);
            let again = (key.code == KeyCode::Enter || key.code == KeyCode::F(3)) && plainly_pressed(
                key,
                key.code,
            ) && state.query.len() > 0;
            &&& plainly_pressed(key, KeyCode::Char('n')) || (again && !key.modifiers.shift) ==> {
                &&& after == SearchState { current: Some(next), ..state }
                &&& action == LogViewAction::ShowMatch(state.matches[next])
            }
            &&& plainly_pressed(key, KeyCode::Char('N')) || (again && key.modifiers.shift) ==> {
                &&& after == SearchState { current: Some(last), ..state }
                &&& action == LogViewAction::ShowMatch(state.matches[last])
            }
        }),
{
    let count = state.matches.len() as int;
    if at + 1 == count {
        assert((at + 1) % count == 0) by (nonlinear_arith)
            requires
                at + 1 == count,
                0 < count,
        ;
    } else {
        vstd::arithmetic::div_mod::lemma_small_mod((at + 1) as nat, count as nat);
    }
    if at == 0 {
        vstd::arithmetic::div_mod::lemma_small_mod((count - 1) as nat, count as nat);
    } else {
        vstd::arithmetic::div_mod::lemma_mod_add_multiples_vanish(at - 1, count);
        vstd::arithmetic::div_mod::lemma_small_mod((at - 1) as nat, count as nat);
        assert((at + count - 1) % count == at - 1);
    }
}

/// Where matches are known and none is shown, `n` shows the first and `N` the
/// last; where none is known, both show nothing.
pub proof fn match_keys_start_at_the_ends(
    state: SearchState,
    key: KeyEvent,
    command_context: bool,
    has_terminal: bool,
    output: RetainedOutput,
)
    requires
        state.editor is None,
        state.generation == Some(output.generation),
        state.current is None,
        logs_are_shown(state, has_terminal),
    ensures
        ({
            let (after, action) = state.keyed(key, command_context, has_terminal, output);
            let last = state.matches.len() - 1;
            &&& plainly_pressed(key, KeyCode::Char('n')) && state.matches.len() > 0 ==> action
                == LogViewAction::ShowMatch(state.matches[0]) && after.current == Some(0int)
            &&& plainly_pressed(key, KeyCode::Char('N')) && state.matches.len() > 0 ==> action
                == LogViewAction::ShowMatch(state.matches[last]) && after.current == Some(last)
            &&& (plainly_pressed(key, KeyCode::Char('n')) || plainly_pressed(
                key,
                KeyCode::Char('N'),
            )) && state.matches.len() == 0 ==> action == LogViewAction::Changed && after.current
                is None
        }),
{
}

/// Where the output changed, a match that is still found stays the one shown,
/// and the matches are those of the new output.
pub proof fn new_output_keeps_the_match(state: SearchState, output: RetainedOutput, wanted: LogMatch)
    requires
        state.generation != Some(output.generation),
        state.current is Some,
        0 <= state.current->0 < state.matches.len(),
        state.matches[state.current->0] == wanted,
    ensures
        ({
            let query = if state.editor is Some {
                state.editor->0
            } else {
                state.query
            };
            let (after, changed) = state.refreshed(output);
            &&& changed
            &&& after.matches == found(output, query).0
            &&& after.query == state.query && after.editor == state.editor
            &&& after.current is Some <==> after.matches.contains(wanted)
            &&& after.current is Some ==> 0 <= after.current->0 < after.matches.len()
                && after.matches[after.current->0] == wanted
        }),
{
    let (after, _) = state.refreshed(output);
    after.matches.index_of_first_ensures(wanted);
}

/// What is typed into a search is searched for: a letter is added to what was
/// typed, and Backspace takes the last one off again.
pub proof fn typed_letters_are_searched(
    state: SearchState,
    key: KeyEvent,
    erase: KeyEvent,
    letter: char,
    command_context: bool,
    has_terminal: bool,
    output: RetainedOutput,
)
    requires
        state.editor is Some,
        plainly_pressed(key, KeyCode::Char(letter)),
        erase.kind == KeyEventKind::Press,
        erase.code == KeyCode::Backspace,
        byte_len(state.editor->0) + utf8_size(letter) <= 256,
    ensures
        ({
            let typed = state.keyed(key, command_context, has_terminal, output).0;
            let erased = typed.keyed(erase, command_context, has_terminal, output).0;
            &&& typed.editor == Some(state.editor->0.push(letter))
            &&& typed.query == state.query
            &&& typed.matches == found(output, state.editor->0.push(letter)).0
            &&& erased.editor == state.editor
            &&& erased.matches == found(output, state.editor->0).0
        }),
{
    assert(state.editor->0.push(letter).drop_last() =~= state.editor->0);
}

/// Enter accepts what was typed: it becomes the query, the editor closes, and
/// the first match is shown. Escape and Control-C keep the query that was there.
pub proof fn a_search_is_accepted_or_left(
    state: SearchState,
    key: KeyEvent,
    command_context: bool,
    has_terminal: bool,
    output: RetainedOutput,
)
    requires
        state.editor is Some,
        key.kind == KeyEventKind::Press,
    ensures
        ({
            let (after, action) = state.keyed(key, command_context, has_terminal, output);
            &&& key.code == KeyCode::Enter ==> {
                let matches = found(output, state.editor->0).0;
                &&& after.editor is None
                &&& after.query == state.editor->0
                &&& after.matches == matches
                &&& after.representation == state.representation
                &&& matches.len() > 0 ==> action == LogViewAction::ShowMatch(matches[0])
                    && after.current == Some(0int)
                &&& matches.len() == 0 ==> after.current is None
            }
            &&& key.code == KeyCode::Esc || (key.code == KeyCode::Char('c')
                && key.modifiers.control) ==> {
                &&& after.editor is None
                &&& after.query == state.query
                &&& after.matches == found(output, state.query).0
                &&& state.origin matches Some(origin) ==> after.representation == origin
            }
        }),
{
}

/// The other keys of Logs: a slash opens a search, `l` switches between a
/// terminal and its Logs, `f` follows the tail, and `c` and `y` copy.
pub proof fn log_keys_do_as_listed(
    state: SearchState,
    key: KeyEvent,
    command_context: bool,
    has_terminal: bool,
    output: RetainedOutput,
)
    requires
        state.editor is None,
    ensures
        ({
            let (after, action) = state.keyed(key, command_context, has_terminal, output);
            let shown = logs_are_shown(state, has_terminal);
            &&& plainly_pressed(key, KeyCode::Char('/')) && (shown || command_context) ==> {
                &&& after.editor == Some(Seq::<char>::empty())
                &&& after.query == state.query
                &&& after.representation == OutputRepresentation::Logs
                &&& action == LogViewAction::Pause
            }
            &&& plainly_pressed(key, KeyCode::Char('l')) && has_terminal && (shown
                || command_context) ==> {
                &&& after.representation != state.representation
                &&& after == SearchState { representation: after.representation, ..state }
            }
            &&& plainly_pressed(key, KeyCode::Char('f')) && shown ==> action
                == LogViewAction::Follow && after == SearchState { current: None, ..state }
            &&& (plainly_pressed(key, KeyCode::Char('c')) || plainly_pressed(
                key,
                KeyCode::Char('y'),
            )) && shown ==> action == LogViewAction::Copy && after == state
            &&& key.kind != KeyEventKind::Press ==> action == LogViewAction::Ignored && after
                == state
        }),
{
}

/// A terminal is not asked for Logs: a Process without one always shows Logs.
pub proof fn pipes_always_show_logs(state: SearchState)
    ensures
        state.shown(false) == OutputRepresentation::Logs,
        state.shown(true) == state.representation,
{
}

/// The result of a search tells which match is shown, of how many.
pub proof fn results_are_counted(state: SearchState, at: int)
    requires
        state.editor is None,
        state.query.len() > 0,
        0 <= at < state.matches.len(),
        state.current == Some(at),
    ensures
        state.result_text() == "Match "@ + decimal_text((at + 1) as nat) + " of "@ + decimal_text(
            state.matches.len(),
        ) + (if state.limited {
            "+"@
        } else {
            ""@
        }),
{
}

/// The status names what is searched for: while it is typed with a mark behind
/// it, and then with the result; without a query there is none.
pub proof fn searches_are_named(search: SearchState)
    ensures
        search.editor matches Some(editor) ==> search.status_text() == Some(
            "Search: "@ + editor + "_"@,
        ),
        search.editor is None && search.query.len() > 0 ==> search.status_text() == Some(
            "Search: "@ + search.query + " · "@ + search.result_text(),
        ),
        search.editor is None && search.query.len() == 0 ==> search.status_text() is None,
{
}

/// `l` changes between a terminal and its Logs, and back when pressed again;
/// where there is no terminal it does nothing.
pub proof fn the_logs_key_changes_the_view(
    search: SearchState,
    key: KeyEvent,
    output: RetainedOutput,
)
    requires
        plainly_pressed(key, KeyCode::Char('l')),
        search.editor is None,
    ensures
        search.keyed(key, true, false, output) == (search, LogViewAction::Ignored),
        ({
            let once = search.keyed(key, true, true, output).0;
            let twice = once.keyed(key, true, true, output).0;
            &&& once.representation != search.representation
            &&& twice == search
        }),
{
}

} // verus!
