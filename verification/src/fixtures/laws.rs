//! What holds of what the proofs look for.

use vstd::prelude::*;

#[allow(unused_imports)]
use super::checks::{
    backs_off, has_failed_exit, is_completed, is_live, is_ready, is_running, runs, waits,
    VerdictView,
};
#[allow(unused_imports)]
use super::retained::{
    any_marks, any_proves, any_says, data_texts, digits_end, hex_character, hex_end, hex_text, highest,
    is_hex_digit, larger, last_tick_in, marked_number, markers, marks, max_tick_in,
    noisy_verdict, number_reading, pid_in, proves, restart_verdict, retained_size,
    says_somewhere, tick_at, OutputStream, RetainedChunk,
};
#[allow(unused_imports)]
use crate::config::command::{all_digits, digits_value, is_digit};
#[allow(unused_imports)]
use crate::config::env::lines_of;
#[allow(unused_imports)]
use crate::config::env_laws::lines_are_split_at_line_ends;
#[allow(unused_imports)]
use crate::config::show::decimal_is_read_back;
#[allow(unused_imports)]
use crate::input::{KeyCode, KeyEvent, KeyEventKind, KeyModifiers};
#[allow(unused_imports)]
use crate::interaction_fixture::{begun_verdict, ingest_verdict, Ticks};
#[allow(unused_imports)]
use crate::output::occurrences;
#[allow(unused_imports)]
use crate::scan::{
    first_kept, holds, last_kept, split_first, trimmed, trimmed_start, word_position, Blank,
};
#[allow(unused_imports)]
use crate::snapshot::{CheckKind, CheckState, Lifecycle, ProcessSnapshot, ProjectSnapshot, RunExit};
#[allow(unused_imports)]
use crate::terminal_fixture::{
    backpressure_reading, event_fault, render_fault, shows, typed_keys, unwrapped, CellColor,
    CursorShape, RenderedCell, RenderedCursor, TerminalEvent,
};
#[allow(unused_imports)]
use crate::text::{decimal_text, word_at};

verus! {

/// The value of a hexadecimal digit.
pub open spec fn hex_value(character: char) -> int {
    if '0' <= character && character <= '9' {
        character as int - '0' as int
    } else if 'a' <= character && character <= 'f' {
        character as int - 'a' as int + 10
    } else {
        -1
    }
}

proof fn a_digit_is_its_value(digit: int)
    requires
        0 <= digit < 16,
    ensures
        hex_value(hex_character(digit)) == digit,
{
}

proof fn first_bytes_are_read_back(bytes: Seq<u8>, count: int, at: int)
    requires
        0 <= at < count <= bytes.len(),
    ensures
        hex_text(bytes, count).len() == 2 * count,
        hex_text(bytes, count)[2 * at] == hex_character(bytes[at] as int / 16),
        hex_text(bytes, count)[2 * at + 1] == hex_character(bytes[at] as int % 16),
    decreases count,
{
    let before = hex_text(bytes, count - 1);
    let last = seq![
        hex_character(bytes[count - 1] as int / 16),
        hex_character(bytes[count - 1] as int % 16),
    ];
    assert(hex_text(bytes, count) == before + last);
    if count > 1 {
        first_bytes_are_read_back(
            bytes,
            count - 1,
            if at < count - 1 {
                at
            } else {
                0
            },
        );
    } else {
        assert(before.len() == 0);
    }
    if at < count - 1 {
        assert((before + last)[2 * at] == before[2 * at]);
        assert((before + last)[2 * at + 1] == before[2 * at + 1]);
    } else {
        assert((before + last)[2 * at] == last[0]);
        assert((before + last)[2 * at + 1] == last[1]);
    }
}

/// Bytes are written as two lower-case hexadecimal digits each, the higher one
/// first.
pub proof fn hexadecimal_is_read_back(bytes: Seq<u8>, at: int)
    requires
        0 <= at < bytes.len(),
    ensures
        ({
            let text = hex_text(bytes, bytes.len() as int);
            &&& text.len() == 2 * bytes.len()
            &&& 0 <= hex_value(text[2 * at]) < 16
            &&& 0 <= hex_value(text[2 * at + 1]) < 16
            &&& bytes[at] == 16 * hex_value(text[2 * at]) + hex_value(text[2 * at + 1])
        }),
{
    first_bytes_are_read_back(bytes, bytes.len() as int, at);
    a_digit_is_its_value(bytes[at] as int / 16);
    a_digit_is_its_value(bytes[at] as int % 16);
}

/// A written number is read back, with a sign or without; one that is too
/// large is not read.
pub proof fn numbers_are_read_back(number: nat)
    ensures
        number <= u32::MAX ==> number_reading(decimal_text(number)) == Some(number as u32),
        number <= u32::MAX ==> number_reading(seq!['+'] + decimal_text(number)) == Some(
            number as u32,
        ),
        number > u32::MAX ==> number_reading(decimal_text(number)) is None,
        number_reading(Seq::empty()) is None,
{
    decimal_is_read_back(number);
    let text = decimal_text(number);
    assert(is_digit(text[0]));
    assert((seq!['+'] + text).skip(1) =~= text);
}

proof fn digits_are_kept(text: Seq<char>)
    requires
        all_digits(text),
    ensures
        trimmed(text, Blank::White) == text,
        !text.contains('\n'),
        text.last() != '\r',
{
    assert(is_digit(text[0]));
    assert(is_digit(text[text.len() - 1]));
    assert(!Blank::White.cuts(text[0]));
    assert(!Blank::White.cuts(text[text.len() - 1]));
    assert(first_kept(text, Blank::White, 0) == 0);
    assert(trimmed_start(text, Blank::White) =~= text);
    assert(last_kept(text, Blank::White, text.len() as int) == text.len());
    assert(trimmed(text, Blank::White) =~= text);
    assert forall|i: int| 0 <= i < text.len() implies text[i] != '\n' by {
        assert(is_digit(text[i]));
    }
}

proof fn nothing_is_found(text: Seq<char>, word: Seq<char>, from: int)
    requires
        0 <= from,
        !holds(text, word),
    ensures
        word_position(text, word, from) is None,
    decreases text.len() + 1 - from,
{
    if from <= text.len() {
        assert(!word_at(text, word, from));
        nothing_is_found(text, word, from + 1);
    }
}

/// The number behind a mark is read, whatever lines follow it, unless the mark
/// comes again.
pub proof fn the_number_behind_a_mark_is_read(mark: Seq<char>, number: nat, rest: Seq<char>)
    requires
        mark.len() > 0,
        number <= u32::MAX,
        !holds(decimal_text(number) + seq!['\n'] + rest, mark),
        !holds(decimal_text(number), mark),
    ensures
        marked_number(mark + decimal_text(number), mark) == Some(number as u32),
        marked_number(mark + (decimal_text(number) + seq!['\n'] + rest), mark) == Some(
            number as u32,
        ),
{
    let digits = decimal_text(number);
    decimal_is_read_back(number);
    digits_are_kept(digits);
    numbers_are_read_back(number);
    lines_are_split_at_line_ends(digits, rest);
    let alone = mark + digits;
    assert(alone.subrange(0, mark.len() as int) =~= mark);
    assert(word_at(alone, mark, 0));
    assert(alone.skip(mark.len() as int) =~= digits);
    nothing_is_found(digits, mark, 0);
    let after = digits + seq!['\n'] + rest;
    let more = mark + after;
    assert(more.subrange(0, mark.len() as int) =~= mark);
    assert(word_at(more, mark, 0));
    assert(more.skip(mark.len() as int) =~= after);
    nothing_is_found(after, mark, 0);
    assert((seq![digits] + lines_of(rest))[0] == digits);
}

proof fn the_highest_is_highest(text: Seq<char>, places: Seq<int>, width: int, count: int)
    requires
        0 <= count <= places.len(),
    ensures
        match highest(text, places, width, count) {
            None => forall|i: int|
                0 <= i < count ==> tick_at(text, #[trigger] places[i] + width) is None,
            Some(tick) => {
                &&& forall|i: int|
                    0 <= i < count ==> (tick_at(text, #[trigger] places[i] + width) matches Some(
                        other,
                    ) ==> other <= tick)
                &&& exists|i: int|
                    0 <= i < count && tick_at(text, #[trigger] places[i] + width) == Some(tick)
            },
        },
    decreases count,
{
    if count > 0 {
        the_highest_is_highest(text, places, width, count - 1);
        let last = places[count - 1];
        assert(places[count - 1] == last);
        match highest(text, places, width, count - 1) {
            None => {
                if let Some(tick) = tick_at(text, last + width) {
                    assert(tick_at(text, places[count - 1] + width) == Some(tick));
                }
            },
            Some(before) => {
                let i = choose|i: int|
                    0 <= i < count - 1 && tick_at(text, #[trigger] places[i] + width) == Some(before);
                assert(tick_at(text, places[i] + width) == Some(before));
            },
        }
    }
}

/// The highest tick of a text is one of the numbers behind its marks, and none
/// of them is higher; the last one is no higher either.
pub proof fn no_tick_is_higher(text: Seq<char>, mark: Seq<char>)
    ensures
        ({
            let places = occurrences(text, mark, 0);
            match max_tick_in(text, mark) {
                None => last_tick_in(text, mark) is None && forall|i: int|
                    0 <= i < places.len() ==> tick_at(
                        text,
                        #[trigger] places[i] + mark.len() as int,
                    ) is None,
                Some(highest) => {
                    &&& last_tick_in(text, mark) matches Some(last) ==> last <= highest
                    &&& forall|i: int|
                        0 <= i < places.len() ==> (tick_at(
                            text,
                            #[trigger] places[i] + mark.len() as int,
                        ) matches Some(other) ==> other <= highest)
                    &&& exists|i: int|
                        0 <= i < places.len() && tick_at(
                            text,
                            #[trigger] places[i] + mark.len() as int,
                        ) == Some(highest)
                },
            }
        }),
{
    let places = occurrences(text, mark, 0);
    the_highest_is_highest(text, places, mark.len() as int, places.len() as int);
    if places.len() > 0 {
        assert(places[places.len() - 1] == places.last());
    }
}

/// Digits are read as far as they reach.
pub proof fn digits_are_read_to_their_end(text: Seq<char>, from: int)
    requires
        0 <= from <= text.len(),
    ensures
        ({
            let end = digits_end(text, from);
            &&& from <= end <= text.len()
            &&& forall|i: int| from <= i < end ==> is_digit(#[trigger] text[i])
            &&& end < text.len() ==> !is_digit(text[end])
        }),
        ({
            let end = hex_end(text, from);
            &&& from <= end <= text.len()
            &&& forall|i: int| from <= i < end ==> is_hex_digit(#[trigger] text[i])
            &&& end < text.len() ==> !is_hex_digit(text[end])
        }),
    decreases text.len() - from,
{
    if from < text.len() {
        digits_are_read_to_their_end(text, from + 1);
    }
}

proof fn first_chunks_are_counted(chunks: Seq<RetainedChunk>, chunk: RetainedChunk, count: int)
    requires
        0 <= count <= chunks.len(),
    ensures
        retained_size(chunks.push(chunk), count) == retained_size(chunks, count),
        markers(chunks.push(chunk), count) == markers(chunks, count),
        data_texts(chunks.push(chunk), count) == data_texts(chunks, count),
        markers(chunks, count) + data_texts(chunks, count).len() == count,
    decreases count,
{
    if count > 0 {
        first_chunks_are_counted(chunks, chunk, count - 1);
        assert(chunks.push(chunk)[count - 1] == chunks[count - 1]);
    }
}

/// One more chunk adds its bytes, and either one marker or one text; every
/// chunk is one of the two.
pub proof fn every_chunk_counts(chunks: Seq<RetainedChunk>, chunk: RetainedChunk)
    ensures
        ({
            let count = chunks.len() as int;
            let more = chunks.push(chunk);
            &&& retained_size(more, count + 1) == retained_size(chunks, count) + chunk.size()
            &&& markers(chunks, count) + data_texts(chunks, count).len() == count
            &&& chunk is Marker ==> markers(more, count + 1) == markers(chunks, count) + 1
                && data_texts(more, count + 1) == data_texts(chunks, count)
            &&& chunk matches RetainedChunk::Data { text, .. } ==> markers(more, count + 1)
                == markers(chunks, count) && data_texts(more, count + 1) == data_texts(
                chunks,
                count,
            ).push(text@)
        }),
{
    first_chunks_are_counted(chunks, chunk, chunks.len() as int);
    assert(chunks.push(chunk)[chunks.len() as int] == chunk);
}

/// Output proves a text only for its own Run and its own stream.
pub proof fn output_proves_its_own_run(
    chunk: RetainedChunk,
    run: u64,
    wanted: OutputStream,
    needle: Seq<char>,
)
    ensures
        proves(chunk, run, wanted, needle) ==> says_somewhere(chunk, needle) && !marks(chunk, run),
        chunk matches RetainedChunk::Data { run_id, stream, text } ==> (proves(
            chunk,
            run,
            wanted,
            needle,
        ) <==> run_id == run && stream == wanted && holds(text@, needle)),
        chunk matches RetainedChunk::Marker { run_id, .. } ==> (marks(chunk, run) <==> run_id
            == run),
{
}

/// Noisy output passes while it stays within its bound and is retained, and a
/// restart passes while three Run boundaries stay within the bound.
pub proof fn bounded_output_passes(chunks: Seq<RetainedChunk>, limit: int)
    ensures
        ({
            let size = retained_size(chunks, chunks.len() as int);
            &&& noisy_verdict(chunks, limit) == VerdictView::Met <==> size <= limit && any_says(
                chunks,
                "fixture-noisy"@,
            )
            &&& restart_verdict(chunks, limit) == VerdictView::Met <==> size <= limit && markers(
                chunks,
                chunks.len() as int,
            ) >= 3
        }),
{
}

/// A process number is one that stands behind its mark in some output, and
/// none is found only where none stands there.
pub proof fn process_numbers_stand_in_the_output(
    chunks: Seq<RetainedChunk>,
    mark: Seq<char>,
    from: int,
)
    requires
        0 <= from <= chunks.len(),
    ensures
        match pid_in(chunks, mark, from) {
            Some(pid) => exists|i: int|
                from <= i < chunks.len() && (#[trigger] chunks[i] matches RetainedChunk::Data {
                    text,
                    ..
                } && marked_number(text@, mark) == Some(pid)),
            None => forall|i: int|
                from <= i < chunks.len() ==> (#[trigger] chunks[i] matches RetainedChunk::Data {
                    text,
                    ..
                } ==> marked_number(text@, mark) is None),
        },
    decreases chunks.len() - from,
{
    if from < chunks.len() {
        process_numbers_stand_in_the_output(chunks, mark, from + 1);
        if let RetainedChunk::Data { text, .. } = chunks[from] {
            if let Some(pid) = marked_number(text@, mark) {
                assert(chunks[from] matches RetainedChunk::Data { text, .. } && marked_number(
                    text@,
                    mark,
                ) == Some(pid));
            }
        }
    }
}

/// An unwrapped text is the text without its line ends.
pub proof fn unwrapping_drops_line_ends(text: Seq<char>, more: Seq<char>)
    ensures
        !unwrapped(text).contains('\n'),
        !text.contains('\n') ==> unwrapped(text) == text,
        unwrapped(text + more) == unwrapped(text) + unwrapped(more),
        unwrapped(seq!['\n']).len() == 0,
    decreases text.len(), more.len(),
{
    reveal_with_fuel(unwrapped, 2);
    if text.len() > 0 {
        unwrapping_drops_line_ends(text.drop_last(), Seq::empty());
        if !text.contains('\n') {
            assert forall|i: int| 0 <= i < text.drop_last().len() implies text.drop_last()[i]
                != '\n' by {
                assert(text.contains(text[i]));
            }
            assert(text.contains(text.last()));
            assert(text.drop_last().push(text.last()) =~= text);
        }
        let short = unwrapped(text.drop_last());
        if text.last() != '\n' {
            assert forall|i: int| 0 <= i < unwrapped(text).len() implies unwrapped(text)[i]
                != '\n' by {
                if i < short.len() {
                    assert(short.contains(short[i]));
                }
            }
        }
    }
    if more.len() == 0 {
        assert(text + more =~= text);
        assert(unwrapped(text) + unwrapped(more) =~= unwrapped(text));
    } else {
        assert((text + more).drop_last() =~= text + more.drop_last());
        unwrapping_is_piecewise(text, more);
    }
}

proof fn unwrapping_is_piecewise(text: Seq<char>, more: Seq<char>)
    ensures
        unwrapped(text + more) == unwrapped(text) + unwrapped(more),
    decreases more.len(),
{
    if more.len() == 0 {
        assert(text + more =~= text);
        assert(unwrapped(text) + unwrapped(more) =~= unwrapped(text));
    } else {
        assert((text + more).drop_last() =~= text + more.drop_last());
        unwrapping_is_piecewise(text, more.drop_last());
        if more.last() != '\n' {
            assert((unwrapped(text) + unwrapped(more.drop_last())).push(more.last()) =~= unwrapped(
                text,
            ) + unwrapped(more.drop_last()).push(more.last()));
        }
    }
}

/// A text is typed key by key: one more letter is one more key, pressed once
/// and without a modifier.
pub proof fn texts_are_typed_key_by_key(text: Seq<char>, letter: char)
    ensures
        typed_keys(Seq::empty()).len() == 0,
        typed_keys(text.push(letter)) == typed_keys(text).push(
            KeyEvent {
                code: KeyCode::Char(letter),
                modifiers: KeyModifiers { shift: false, control: false, alt: false, other: false },
                kind: KeyEventKind::Press,
            },
        ),
{
    assert(text.push(letter).drop_last() =~= text);
    assert(text.push(letter).last() == letter);
}

/// A failed terminal ends every fixture, and a full one ends those that do not
/// wait for it; other reports end none.
pub proof fn failed_terminals_end_a_fixture(event: TerminalEvent, full: Seq<char>)
    ensures
        event is Failed ==> event_fault(event, full) is Some && backpressure_reading(event) is Err,
        event is InputBackpressure ==> event_fault(event, full) == Some(full) && (
        backpressure_reading(event) matches Ok(Some(_))),
        !(event is Failed) && !(event is InputBackpressure) ==> event_fault(event, full) is None
            && backpressure_reading(event) == Ok::<Option<Seq<char>>, Seq<char>>(None),
{
}

/// A rendered row passes with its colors, its styles, its wide and combining
/// characters and its cursor, and with nothing less.
pub proof fn rendered_rows_pass_whole(row: Seq<RenderedCell>, cursor: RenderedCursor)
    ensures
        render_fault(row, Some(cursor)) is None <==> {
            &&& row[0].fg != CellColor::Reset
            &&& row[0].fg != row[3].fg
            &&& row[1].fg == CellColor::Rgb(255, 95, 0)
            &&& row[2].fg == CellColor::Rgb(1, 2, 3)
            &&& row[3].bold
            &&& row[4].dim
            &&& row[5].italic
            &&& row[6].underlined
            &&& row[7].reversed
            &&& row[8].symbol@ == "界"@
            &&& row[9].symbol@ == " "@
            &&& row[10].symbol@ == "e\u{301}"@
            &&& cursor.x == 4
            &&& cursor.y == 2
            &&& cursor.shape == CursorShape::Bar
            &&& !cursor.blinking
        },
        render_fault(row, None) is Some,
{
}

/// Output went on where every Process has ticked further since.
pub proof fn ingestion_goes_on(before: Ticks, after: Ticks)
    ensures
        ingest_verdict(before, after) == VerdictView::Met <==> after.focused > before.focused
            && after.mute > before.mute && after.piped > before.piped,
        begun_verdict(before) == VerdictView::Met <==> before.focused >= 2 && before.mute >= 2
            && before.piped >= 2,
{
}

/// A Process that runs is not waiting, one that completed or failed has no Run
/// left, and readiness and liveness are those of a running Process.
pub proof fn states_exclude_each_other(
    snapshot: ProjectSnapshot,
    name: Seq<char>,
    kind: CheckKind,
    code: Option<i32>,
)
    ensures
        runs(snapshot, name) ==> !waits(snapshot, name) && !is_completed(snapshot, name, code)
            && !has_failed_exit(snapshot, name, code),
        is_completed(snapshot, name, code) ==> !has_failed_exit(snapshot, name, code),
        is_ready(snapshot, name, kind) ==> runs(snapshot, name),
        is_live(snapshot, name) ==> runs(snapshot, name),
        runs(snapshot, name) ==> snapshot.find(name) is Some && snapshot.find(name)->0.lifecycle
            == Lifecycle::Running && snapshot.find(name)->0.current_run is Some,
        waits(snapshot, name) ==> snapshot.find(name) is Some && snapshot.find(name)->0.lifecycle
            == Lifecycle::Waiting,
        snapshot.find(name) is None ==> !runs(snapshot, name) && !waits(snapshot, name),
{
}

} // verus!
