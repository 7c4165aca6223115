//! One immutable snapshot of a Process's retained output, as display lines.
//!
//! Every display line comes from one retained source line, except the notice
//! that stands at the head of a truncated output. Sources grow from line to
//! line, so a source identifies a line however the output grows or shrinks.

use vstd::prelude::*;

use crate::text::{byte_length, char_index_at_byte, characters, utf8_width};

#[allow(unused_imports)]
use crate::text::{
    byte_len, byte_start, byte_start_monotone, byte_start_step, index_at_byte, word_at,
};

verus! {

/// A retained source line: the sequence number of its chunk and the line
/// within that chunk.
pub type LineSource = (u64, usize);

/// One display line of retained output.
#[derive(Clone, Debug, PartialEq, Eq)]
pub struct PipeLine {
    pub text: String,
    /// The retained source line; only the retained-head notice has none.
    pub source: Option<LineSource>,
    /// Whether the line is a notice instead of Process output.
    pub marker: bool,
    /// The selected bytes of the text.
    pub selection: Option<(usize, usize)>,
    /// The highlighted bytes of the text.
    pub highlight: Option<(usize, usize)>,
    /// The byte at which Process output starts in the text.
    pub content_offset: usize,
}

impl PipeLine {
    /// A copy of the line.
    pub fn duplicate(&self) -> (r: Self)
        ensures
            r == *self,
    {
        PipeLine {
            text: self.text.clone(),
            source: self.source,
            marker: self.marker,
            selection: self.selection,
            highlight: self.highlight,
            content_offset: self.content_offset,
        }
    }
}

/// Whether one source comes before another.
pub open spec fn source_before(a: LineSource, b: LineSource) -> bool {
    a.0 < b.0 || (a.0 == b.0 && a.1 < b.1)
}

/// Whether one source comes before another.
pub fn is_source_before(a: LineSource, b: LineSource) -> (r: bool)
    ensures
        r == source_before(a, b),
{
    a.0 < b.0 || (a.0 == b.0 && a.1 < b.1)
}

/// One literal search match: the source line and the matched bytes of its
/// Process output.
#[derive(Clone, Copy, Debug, PartialEq, Eq, Structural)]
pub struct LogMatch {
    pub sequence: u64,
    pub line: usize,
    pub start: usize,
    pub end: usize,
}

/// The bounded result of one search.
#[derive(Clone, Debug, PartialEq, Eq)]
pub struct LogSearch {
    pub matches: Vec<LogMatch>,
    /// Whether further matches were left out.
    pub limited: bool,
}

impl Default for LogSearch {
    fn default() -> (r: Self)
        ensures
            r.matches@ == Seq::<LogMatch>::empty(),
            !r.limited,
    {
        LogSearch { matches: Vec::new(), limited: false }
    }
}

/// An immutable snapshot of one Process's retained output.
#[derive(Clone, Debug, PartialEq, Eq)]
pub struct RetainedOutput {
    /// The display lines, oldest first.
    pub lines: Vec<PipeLine>,
    /// Whether older output was dropped. The first line then is the notice.
    pub truncated: bool,
    /// Changes whenever the retained output changes.
    pub generation: u64,
    /// The most matches that one search reports.
    pub search_limit: usize,
}

/// What holds of every snapshot: only the head notice of a truncated output
/// lacks a source, and sources grow from line to line.
pub open spec fn retained_lines(lines: Seq<PipeLine>, truncated: bool) -> bool {
    &&& truncated ==> lines.len() > 0 && lines[0].source is None && lines[0].marker
    &&& forall|i: int|
        #![trigger lines[i]]
        0 <= i < lines.len() && !(truncated && i == 0) ==> lines[i].source is Some
    &&& forall|i: int, j: int|
        #![trigger lines[i], lines[j]]
        0 <= i < j < lines.len() && !(truncated && i == 0) ==> source_before(
            lines[i].source->0,
            lines[j].source->0,
        )
}

/// The position of a retained source line.
pub open spec fn place_of(lines: Seq<PipeLine>, source: LineSource) -> Option<int> {
    if exists|i: int| 0 <= i < lines.len() && (#[trigger] lines[i]).source == Some(source) {
        Some(choose|i: int| 0 <= i < lines.len() && (#[trigger] lines[i]).source == Some(source))
    } else {
        None
    }
}

/// The position of a retained source line, or of the head.
pub open spec fn place_of_anchor(lines: Seq<PipeLine>, anchor: Option<LineSource>) -> Option<int> {
    match anchor {
        Some(source) => place_of(lines, source),
        None => Some(0),
    }
}

/// At most `count` lines from a position on.
pub open spec fn lines_from(lines: Seq<PipeLine>, start: int, count: int) -> Seq<PipeLine> {
    lines.subrange(
        start,
        if start + count <= lines.len() {
            start + count
        } else {
            lines.len() as int
        },
    )
}

/// The last `count` lines.
pub open spec fn last_lines(lines: Seq<PipeLine>, count: int) -> Seq<PipeLine> {
    if count <= lines.len() {
        lines.skip(lines.len() - count)
    } else {
        lines
    }
}

/// A source stands at one position at most.
pub proof fn place_is_unique(lines: Seq<PipeLine>, truncated: bool, i: int)
    requires
        retained_lines(lines, truncated),
        0 <= i < lines.len(),
        lines[i].source is Some,
    ensures
        place_of(lines, lines[i].source->0) == Some(i),
{
    let source = lines[i].source->0;
    let place = choose|k: int| 0 <= k < lines.len() && (#[trigger] lines[k]).source == Some(source);
    assert(lines[i].source == Some(source));
    if place < i {
        assert(source_before(lines[place].source->0, lines[i].source->0));
    } else if i < place {
        assert(source_before(lines[i].source->0, lines[place].source->0));
    }
}

impl RetainedOutput {
    /// What holds of every snapshot.
    pub open spec fn wf(&self) -> bool {
        retained_lines(self.lines@, self.truncated)
    }

    /// Whether what holds of every snapshot holds of this one.
    pub fn is_valid(&self) -> (r: bool)
        ensures
            r == self.wf(),
    {
        let lines = &self.lines;
        if self.truncated && (lines.len() == 0 || lines[0].source.is_some() || !lines[0].marker) {
            return false;
        }
        let first: usize = if self.truncated {
            1
        } else {
            0
        };
        let mut index: usize = first;
        while index < lines.len()
            invariant
                lines@ == self.lines@,
                first == (if self.truncated {
                    1int
                } else {
                    0int
                }),
                self.truncated ==> lines@.len() > 0 && lines@[0].source is None && lines@[0].marker,
                first <= index <= lines.len(),
                forall|i: int| first <= i < index ==> (#[trigger] lines@[i]).source is Some,
                forall|i: int, j: int|
                    #![trigger lines@[i], lines@[j]]
                    first <= i < j < index ==> source_before(
                        lines@[i].source->0,
                        lines@[j].source->0,
                    ),
            decreases lines.len() - index,
        {
            let source = match lines[index].source {
                Some(source) => source,
                None => {
                    proof {
                        assert(lines@[index as int].source is None);
                    }
                    return false;
                },
            };
            if index > first {
                if let Some(before) = lines[index - 1].source {
                    if !is_source_before(before, source) {
                        proof {
                            assert(!source_before(
                                lines@[index - 1].source->0,
                                lines@[index as int].source->0,
                            ));
                        }
                        return false;
                    }
                }
            }
            index = index + 1;
        }
        true
    }

    /// The last lines, at most `count` of them.
    pub fn display_lines(&self, count: usize) -> (r: Vec<PipeLine>)
        ensures
            r@ == last_lines(self.lines@, count as int),
    {
        let start: usize = if count <= self.lines.len() {
            self.lines.len() - count
        } else {
            0
        };
        let lines = self.copy_lines(start, self.lines.len());
        proof {
            assert(lines@ =~= last_lines(self.lines@, count as int));
        }
        lines
    }

    /// The position of a retained source line, or of the head without one, and
    /// the number of display lines.
    pub fn display_position(&self, anchor: Option<LineSource>) -> (r: Option<(usize, usize)>)
        requires
            self.wf(),
        ensures
            match r {
                Some((position, total)) => {
                    &&& place_of_anchor(self.lines@, anchor) == Some(position as int)
                    &&& position <= total
                    &&& anchor is Some ==> position < total
                    &&& total == self.lines.len()
                },
                None => place_of_anchor(self.lines@, anchor) is None,
            },
    {
        match anchor {
            None => Some((0, self.lines.len())),
            Some(source) => {
                let mut index: usize = 0;
                while index < self.lines.len()
                    invariant
                        self.wf(),
                        anchor == Some(source),
                        index <= self.lines.len(),
                        forall|i: int|
                            0 <= i < index ==> (#[trigger] self.lines@[i]).source != Some(source),
                    decreases self.lines.len() - index,
                {
                    if let Some(found) = self.lines[index].source {
                        if found.0 == source.0 && found.1 == source.1 {
                            proof {
                                assert(self.lines@[index as int].source == Some(source));
                                place_is_unique(self.lines@, self.truncated, index as int);
                            }
                            return Some((index, self.lines.len()));
                        }
                    }
                    index = index + 1;
                }
                None
            },
        }
    }

    /// The source line shown at a position.
    pub fn display_source_at(&self, position: usize) -> (r: Option<LineSource>)
        ensures
            r == (if position < self.lines.len() {
                self.lines@[position as int].source
            } else {
                None
            }),
    {
        if position < self.lines.len() {
            self.lines[position].source
        } else {
            None
        }
    }

    /// At most `count` lines from a position on.
    pub fn lines_at(&self, start: usize, count: usize) -> (r: Vec<PipeLine>)
        requires
            start <= self.lines.len(),
        ensures
            r@ == lines_from(self.lines@, start as int, count as int),
    {
        let end: usize = if count <= self.lines.len() - start {
            start + count
        } else {
            self.lines.len()
        };
        self.copy_lines(start, end)
    }

    fn copy_lines(&self, start: usize, end: usize) -> (r: Vec<PipeLine>)
        requires
            start <= end <= self.lines.len(),
        ensures
            r@ == self.lines@.subrange(start as int, end as int),
    {
        let mut copy: Vec<PipeLine> = Vec::new();
        let mut index: usize = start;
        while index < end
            invariant
                start <= index <= end <= self.lines.len(),
                copy@ == self.lines@.subrange(start as int, index as int),
            decreases end - index,
        {
            copy.push(self.lines[index].duplicate());
            index = index + 1;
            proof {
                assert(self.lines@.subrange(start as int, index as int) =~= self.lines@.subrange(
                    start as int,
                    index - 1,
                ).push(self.lines@[index - 1]));
            }
        }
        copy
    }
}

/// The characters at which a word occurs, from left to right and without
/// overlap.
pub open spec fn occurrences(text: Seq<char>, word: Seq<char>, from: int) -> Seq<int>
    decreases text.len() - from,
{
    if from < 0 || from >= text.len() || word.len() == 0 {
        Seq::empty()
    } else if word_at(text, word, from) {
        seq![from] + occurrences(text, word, from + word.len())
    } else {
        occurrences(text, word, from + 1)
    }
}

/// The match of a word that stands at a character of a line.
pub open spec fn match_at(line: PipeLine, word: Seq<char>, at: int) -> LogMatch {
    LogMatch {
        sequence: (line.source->0).0,
        line: (line.source->0).1,
        start: (byte_start(line.text@, at) - line.content_offset) as usize,
        end: (byte_start(line.text@, at + word.len()) - line.content_offset) as usize,
    }
}

/// All matches of a word in one line; only Process output is searched.
pub open spec fn line_matches(line: PipeLine, word: Seq<char>) -> Seq<LogMatch> {
    if line.source is None {
        Seq::empty()
    } else {
        occurrences(
            line.text@,
            word,
            index_at_byte(line.text@, line.content_offset as int, 0),
        ).map_values(|at: int| match_at(line, word, at))
    }
}

/// All matches of a word in the lines, oldest first.
pub open spec fn all_matches(lines: Seq<PipeLine>, word: Seq<char>) -> Seq<LogMatch>
    decreases lines.len(),
{
    if lines.len() == 0 {
        Seq::empty()
    } else {
        all_matches(lines.drop_last(), word) + line_matches(lines.last(), word)
    }
}

/// The result of a search that keeps at most `limit` matches.
pub open spec fn bounded_search(lines: Seq<PipeLine>, word: Seq<char>, limit: int) -> (
    Seq<LogMatch>,
    bool,
) {
    let all = all_matches(lines, word);
    if all.len() > limit {
        (all.take(limit), true)
    } else {
        (all, false)
    }
}

/// Whether a word stands in a text at a character.
fn stands_at(text: &Vec<char>, word: &Vec<char>, at: usize) -> (r: bool)
    requires
        at <= text.len(),
    ensures
        r == word_at(text@, word@, at as int),
{
    if word.len() > text.len() - at {
        return false;
    }
    let mut index: usize = 0;
    while index < word.len()
        invariant
            at + word.len() <= text.len(),
            index <= word.len(),
            forall|i: int| 0 <= i < index ==> text@[at + i] == #[trigger] word@[i],
        decreases word.len() - index,
    {
        if text[at + index] != word[index] {
            proof {
                let found = text@.subrange(at as int, at + word.len());
                assert(found[index as int] != word@[index as int]);
            }
            return false;
        }
        index = index + 1;
    }
    proof {
        assert(text@.subrange(at as int, at + word.len()) =~= word@);
    }
    true
}

/// Every occurrence lies at or after the place where the search starts.
proof fn occurrences_in_range(text: Seq<char>, word: Seq<char>, from: int)
    requires
        0 <= from,
    ensures
        forall|k: int|
            0 <= k < occurrences(text, word, from).len() ==> {
                &&& from <= #[trigger] occurrences(text, word, from)[k]
                &&& word_at(text, word, occurrences(text, word, from)[k])
            },
    decreases text.len() - from,
{
    if from < text.len() && word.len() > 0 {
        if word_at(text, word, from) {
            let rest = occurrences(text, word, from + word.len());
            occurrences_in_range(text, word, from + word.len());
            assert forall|k: int| 0 <= k < occurrences(text, word, from).len() implies {
                &&& from <= #[trigger] occurrences(text, word, from)[k]
                &&& word_at(text, word, occurrences(text, word, from)[k])
            } by {
                if k > 0 {
                    assert(occurrences(text, word, from)[k] == rest[k - 1]);
                }
            }
        } else {
            occurrences_in_range(text, word, from + 1);
            let rest = occurrences(text, word, from + 1);
            assert forall|k: int| 0 <= k < occurrences(text, word, from).len() implies {
                &&& from <= #[trigger] occurrences(text, word, from)[k]
                &&& word_at(text, word, occurrences(text, word, from)[k])
            } by {
                assert(occurrences(text, word, from)[k] == rest[k]);
            }
        }
    }
}

/// Add the matches of one line.
fn collect_line_matches(line: &PipeLine, word: &Vec<char>, found: &mut Vec<LogMatch>)
    ensures
        final(found)@ == old(found)@ + line_matches(*line, word@),
{
    let ghost before = found@;
    let source = match line.source {
        None => {
            proof {
                assert(before + line_matches(*line, word@) =~= before);
            }
            return;
        },
        Some(source) => source,
    };
    let _ = byte_length(line.text.as_str());
    let text = characters(line.text.as_str());
    let first: usize = char_index_at_byte(&text, line.content_offset);
    let mut index: usize = first;
    let mut start: usize = start_of(&text, index);
    let ghost all = occurrences(text@, word@, index as int);
    let ghost mut done: int = 0;
    proof {
        starts_at_or_after(text@, line.content_offset as int, 0);
    }
    while index < text.len() && word.len() > 0
        invariant
            text@ == line.text@,
            line.source == Some(source),
            byte_len(text@) <= usize::MAX,
            first <= index,
            first < text.len() ==> index <= text.len(),
            start == byte_start(text@, index as int),
            first < text.len() ==> line.content_offset <= byte_start(text@, first as int),
            all == occurrences(text@, word@, first as int),
            0 <= done <= all.len(),
            all.skip(done) == occurrences(text@, word@, index as int),
            found@ == before + all.take(done).map_values(|at: int| match_at(*line, word@, at)),
        decreases text.len() - index,
    {
        let ghost spec_before = found@;
        if stands_at(&text, word, index) {
            let end: usize = start_of(&text, index + word.len());
            proof {
                byte_start_monotone(text@, first as int, index as int);
                byte_start_monotone(text@, index as int, index + word.len());
                assert(all.skip(done) =~= seq![index as int] + occurrences(
                    text@,
                    word@,
                    index + word.len(),
                ));
                assert(all.skip(done)[0] == index as int);
            }
            let hit = LogMatch {
                sequence: source.0,
                line: source.1,
                start: start - line.content_offset,
                end: end - line.content_offset,
            };
            found.push(hit);
            proof {
                assert(hit == match_at(*line, word@, index as int));
                assert(all.take(done + 1) =~= all.take(done).push(index as int));
                assert(all.take(done + 1).map_values(|at: int| match_at(*line, word@, at))
                    =~= all.take(done).map_values(|at: int| match_at(*line, word@, at)).push(hit));
                assert(all.skip(done + 1) =~= all.skip(done).skip(1));
                assert(all.skip(done).skip(1) =~= occurrences(text@, word@, index + word.len()));
                done = done + 1;
            }
            index = index + word.len();
            start = end;
        } else {
            proof {
                byte_start_step(text@, index as int);
            }
            start = start + utf8_width(text[index]);
            index = index + 1;
        }
    }
    proof {
        assert(all.skip(done).len() == 0);
        assert(all.take(done) =~= all);
    }
}

/// The byte at which a character starts.
fn start_of(text: &Vec<char>, index: usize) -> (r: usize)
    requires
        index <= text.len(),
        byte_len(text@) <= usize::MAX,
    ensures
        r == byte_start(text@, index as int),
{
    let mut start: usize = 0;
    let mut at: usize = 0;
    while at < index
        invariant
            at <= index <= text.len(),
            byte_len(text@) <= usize::MAX,
            start == byte_start(text@, at as int),
        decreases index - at,
    {
        proof {
            byte_start_step(text@, at as int);
        }
        start = start + utf8_width(text[at]);
        at = at + 1;
    }
    start
}

proof fn starts_at_or_after(text: Seq<char>, byte: int, from: int)
    requires
        0 <= from,
    ensures
        ({
            let index = index_at_byte(text, byte, from);
            &&& index < text.len() ==> byte <= byte_start(text, index)
            &&& from <= text.len() ==> from <= index
            &&& index <= text.len()
        }),
    decreases text.len() - from,
{
    if from < text.len() && byte_start(text, from) < byte {
        starts_at_or_after(text, byte, from + 1);
    }
}

impl RetainedOutput {
    /// Search Process output for a literal, case-sensitive word. An empty word
    /// matches nothing.
    pub fn search(&self, query: &str) -> (r: LogSearch)
        ensures
            (r.matches@, r.limited) == bounded_search(
                self.lines@,
                query@,
                self.search_limit as int,
            ),
    {
        let word = characters(query);
        let mut found: Vec<LogMatch> = Vec::new();
        let mut index: usize = 0;
        while index < self.lines.len()
            invariant
                index <= self.lines.len(),
                word@ == query@,
                found@ == all_matches(self.lines@.take(index as int), word@),
            decreases self.lines.len() - index,
        {
            collect_line_matches(&self.lines[index], &word, &mut found);
            index = index + 1;
            proof {
                assert(self.lines@.take(index as int).drop_last() =~= self.lines@.take(index - 1));
            }
        }
        proof {
            assert(self.lines@.take(index as int) =~= self.lines@);
        }
        let limited = found.len() > self.search_limit;
        found.truncate(self.search_limit);
        LogSearch { matches: found, limited }
    }
}

/// A search for nothing finds nothing.
pub proof fn empty_query_matches_nothing(lines: Seq<PipeLine>)
    ensures
        all_matches(lines, Seq::empty()) == Seq::<LogMatch>::empty(),
    decreases lines.len(),
{
    if lines.len() > 0 {
        empty_query_matches_nothing(lines.drop_last());
        assert(line_matches(lines.last(), Seq::empty()) =~= Seq::<LogMatch>::empty());
        assert(all_matches(lines, Seq::empty()) =~= Seq::<LogMatch>::empty());
    }
}

/// A search reports every match or, when there are more than its limit, that
/// many of them from the oldest on.
pub proof fn search_is_bounded(lines: Seq<PipeLine>, word: Seq<char>, limit: int)
    requires
        0 <= limit,
    ensures
        bounded_search(lines, word, limit).0.len() <= limit,
        bounded_search(lines, word, limit).1 <==> all_matches(lines, word).len() > limit,
        bounded_search(lines, word, limit).0.is_prefix_of(all_matches(lines, word)),
{
}

/// Every match of a line is an occurrence of the word in its output.
pub proof fn line_matches_are_occurrences(line: PipeLine, word: Seq<char>, k: int)
    requires
        0 <= k < line_matches(line, word).len(),
    ensures
        exists|at: int|
            #![trigger word_at(line.text@, word, at)]
            word_at(line.text@, word, at) && line_matches(line, word)[k] == match_at(
                line,
                word,
                at,
            ),
{
    let first = index_at_byte(line.text@, line.content_offset as int, 0);
    starts_at_or_after(line.text@, line.content_offset as int, 0);
    occurrences_in_range(line.text@, word, first);
    let at = occurrences(line.text@, word, first)[k];
    assert(word_at(line.text@, word, at));
    assert(line_matches(line, word)[k] == match_at(line, word, at));
}

} // verus!
