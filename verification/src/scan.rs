//! Looking for pieces of a text.

use vstd::prelude::*;

use crate::text::characters;

#[allow(unused_imports)]
use crate::text::word_at;

verus! {

/// Whether a text begins with a word.
pub open spec fn begins(text: Seq<char>, word: Seq<char>) -> bool {
    word_at(text, word, 0)
}

/// Whether a text ends with a word.
pub open spec fn ends(text: Seq<char>, word: Seq<char>) -> bool {
    word_at(text, word, text.len() - word.len())
}

/// Whether a word stands anywhere in a text.
pub open spec fn holds(text: Seq<char>, word: Seq<char>) -> bool {
    exists|at: int| word_at(text, word, at)
}

/// The first position of a word, from `from` on.
pub open spec fn word_position(text: Seq<char>, word: Seq<char>, from: int) -> Option<int>
    decreases text.len() + 1 - from,
{
    if from < 0 || from > text.len() {
        None
    } else if word_at(text, word, from) {
        Some(from)
    } else {
        word_position(text, word, from + 1)
    }
}

/// The parts before and after the first place of a word.
pub open spec fn split_first(text: Seq<char>, word: Seq<char>) -> Option<(Seq<char>, Seq<char>)> {
    match word_position(text, word, 0) {
        Some(at) => Some((text.take(at), text.skip(at + word.len()))),
        None => None,
    }
}

/// The last position of a character before `end`.
pub open spec fn last_position(text: Seq<char>, character: char, end: int) -> Option<int>
    decreases end,
{
    if end <= 0 || end > text.len() {
        None
    } else if text[end - 1] == character {
        Some(end - 1)
    } else {
        last_position(text, character, end - 1)
    }
}

/// The parts before and after the last place of a character.
pub open spec fn split_last(text: Seq<char>, character: char) -> Option<(Seq<char>, Seq<char>)> {
    match last_position(text, character, text.len() as int) {
        Some(at) => Some((text.take(at), text.skip(at + 1))),
        None => None,
    }
}

/// A text without the word that it begins with.
pub open spec fn after_prefix(text: Seq<char>, word: Seq<char>) -> Option<Seq<char>> {
    if begins(text, word) {
        Some(text.skip(word.len() as int))
    } else {
        None
    }
}

/// A text without the word that it ends with.
pub open spec fn before_suffix(text: Seq<char>, word: Seq<char>) -> Option<Seq<char>> {
    if ends(text, word) {
        Some(text.take(text.len() - word.len()))
    } else {
        None
    }
}

/// Characters that are cut off around a text.
#[derive(Clone, Copy, Debug, PartialEq, Eq, Structural)]
pub enum Blank {
    /// Spaces and tabs.
    Horizontal,
    /// Everything with the Unicode property White_Space.
    White,
}

/// Whether a character has the Unicode property White_Space.
pub open spec fn white_space(character: char) -> bool {
    let scalar = character as u32;
    ||| 0x9 <= scalar <= 0xd
    ||| scalar == 0x20
    ||| scalar == 0x85
    ||| scalar == 0xa0
    ||| scalar == 0x1680
    ||| 0x2000 <= scalar <= 0x200a
    ||| scalar == 0x2028
    ||| scalar == 0x2029
    ||| scalar == 0x202f
    ||| scalar == 0x205f
    ||| scalar == 0x3000
}

impl Blank {
    /// Whether a character is cut off.
    pub open spec fn cuts(self, character: char) -> bool {
        match self {
            Blank::Horizontal => character == ' ' || character == '\t',
            Blank::White => white_space(character),
        }
    }

    /// Whether a character is cut off.
    pub fn cut(self, character: char) -> (r: bool)
        ensures
            r == self.cuts(character),
    {
        match self {
            Blank::Horizontal => character == ' ' || character == '\t',
            Blank::White => {
                let scalar: u32 = character as u32;
                (0x9 <= scalar && scalar <= 0xd) || scalar == 0x20 || scalar == 0x85 || scalar
                    == 0xa0 || scalar == 0x1680 || (0x2000 <= scalar && scalar <= 0x200a) || scalar
                    == 0x2028 || scalar == 0x2029 || scalar == 0x202f || scalar == 0x205f || scalar
                    == 0x3000
            },
        }
    }
}

/// The first position from `from` on that is kept.
pub open spec fn first_kept(text: Seq<char>, blank: Blank, from: int) -> int
    decreases text.len() - from,
{
    if from < 0 || from >= text.len() {
        text.len() as int
    } else if !blank.cuts(text[from]) {
        from
    } else {
        first_kept(text, blank, from + 1)
    }
}

/// The end of what is kept before `end`.
pub open spec fn last_kept(text: Seq<char>, blank: Blank, end: int) -> int
    decreases end,
{
    if end <= 0 || end > text.len() {
        0
    } else if !blank.cuts(text[end - 1]) {
        end
    } else {
        last_kept(text, blank, end - 1)
    }
}

/// A text without leading blanks.
pub open spec fn trimmed_start(text: Seq<char>, blank: Blank) -> Seq<char> {
    text.skip(first_kept(text, blank, 0))
}

/// A text without blanks around it.
pub open spec fn trimmed(text: Seq<char>, blank: Blank) -> Seq<char> {
    let rest = trimmed_start(text, blank);
    rest.take(last_kept(rest, blank, rest.len() as int))
}

/// A piece of a text.
pub fn piece(text: &str, from: usize, to: usize) -> (r: String)
    requires
        from <= to <= text@.len(),
    ensures
        r@ == text@.subrange(from as int, to as int),
{
    text.substring_char(from, to).to_owned()
}

/// Whether a word stands at a character.
pub fn stands(text: &Vec<char>, word: &Vec<char>, at: usize) -> (r: bool)
    ensures
        r == word_at(text@, word@, at as int),
{
    if at > text.len() || word.len() > text.len() - at {
        return false;
    }
    let mut index: usize = 0;
    while index < word.len()
        invariant
            at + word.len() <= text.len(),
            index <= word.len(),
            forall|i: int| 0 <= i < index ==> text@[at + i] == word@[i],
        decreases word.len() - index,
    {
        if text[at + index] != word[index] {
            proof {
                assert(text@.subrange(at as int, at + word.len())[index as int] != word@[index as int]);
            }
            return false;
        }
        index = index + 1;
    }
    proof {
        assert(text@.subrange(at as int, at + word.len()) =~= word@);
    }
    true
}

/// The first position of a word.
pub fn find(text: &str, word: &str) -> (r: Option<usize>)
    ensures
        (match r {
            Some(at) => Some(at as int),
            None => None,
        }) == word_position(text@, word@, 0),
        r matches Some(at) ==> at + word@.len() <= text@.len(),
        r is Some == holds(text@, word@),
{
    let letters = characters(text);
    let pattern = characters(word);
    let mut at: usize = 0;
    loop
        invariant
            letters@ == text@,
            pattern@ == word@,
            at <= letters.len(),
            word_position(text@, word@, 0) == word_position(text@, word@, at as int),
            forall|i: int| i < at ==> !word_at(text@, word@, i),
        decreases letters.len() - at,
    {
        if stands(&letters, &pattern, at) {
            return Some(at);
        }
        if at == letters.len() {
            proof {
                assert(word_position(text@, word@, at + 1) is None);
                assert forall|i: int| !word_at(text@, word@, i) by {}
            }
            return None;
        }
        at = at + 1;
    }
}

/// Whether a word stands anywhere in a text.
pub fn contains(text: &str, word: &str) -> (r: bool)
    ensures
        r == holds(text@, word@),
{
    find(text, word).is_some()
}

/// Whether a text begins with a word.
pub fn starts_with(text: &str, word: &str) -> (r: bool)
    ensures
        r == begins(text@, word@),
{
    stands(&characters(text), &characters(word), 0)
}

/// Whether a text ends with a word.
pub fn ends_with(text: &str, word: &str) -> (r: bool)
    ensures
        r == ends(text@, word@),
{
    let letters = characters(text);
    let pattern = characters(word);
    if pattern.len() > letters.len() {
        return false;
    }
    stands(&letters, &pattern, letters.len() - pattern.len())
}

/// Pairs of optional texts as mathematical values.
pub open spec fn pair_view(pair: Option<(String, String)>) -> Option<(Seq<char>, Seq<char>)> {
    match pair {
        Some((a, b)) => Some((a@, b@)),
        None => None,
    }
}

/// An optional text as mathematical values.
pub open spec fn option_view(text: Option<String>) -> Option<Seq<char>> {
    match text {
        Some(text) => Some(text@),
        None => None,
    }
}

/// The parts before and after the first place of a word.
pub fn split_once(text: &str, word: &str) -> (r: Option<(String, String)>)
    ensures
        pair_view(r) == split_first(text@, word@),
{
    match find(text, word) {
        Some(at) => {
            let count: usize = text.unicode_len();
            let width: usize = word.unicode_len();
            let before = piece(text, 0, at);
            let after = piece(text, at + width, count);
            proof {
                assert(before@ =~= text@.take(at as int));
                assert(after@ =~= text@.skip(at + width));
            }
            Some((before, after))
        },
        None => None,
    }
}

/// The parts before and after the last place of a character.
pub fn rsplit_once(text: &str, character: char) -> (r: Option<(String, String)>)
    ensures
        pair_view(r) == split_last(text@, character),
{
    let letters = characters(text);
    let mut end: usize = letters.len();
    while end > 0
        invariant
            letters@ == text@,
            end <= letters.len(),
            last_position(text@, character, text@.len() as int) == last_position(
                text@,
                character,
                end as int,
            ),
        decreases end,
    {
        if letters[end - 1] == character {
            let before = piece(text, 0, end - 1);
            let after = piece(text, end, letters.len());
            proof {
                assert(before@ =~= text@.take(end - 1));
                assert(after@ =~= text@.skip(end as int));
            }
            return Some((before, after));
        }
        end = end - 1;
    }
    None
}

/// A text without the word that it begins with.
pub fn strip_prefix(text: &str, word: &str) -> (r: Option<String>)
    ensures
        option_view(r) == after_prefix(text@, word@),
{
    if !starts_with(text, word) {
        return None;
    }
    let count: usize = text.unicode_len();
    let rest = piece(text, word.unicode_len(), count);
    proof {
        assert(rest@ =~= text@.skip(word@.len() as int));
    }
    Some(rest)
}

/// A text without the word that it ends with.
pub fn strip_suffix(text: &str, word: &str) -> (r: Option<String>)
    ensures
        option_view(r) == before_suffix(text@, word@),
{
    if !ends_with(text, word) {
        return None;
    }
    let end: usize = text.unicode_len() - word.unicode_len();
    let rest = piece(text, 0, end);
    proof {
        assert(rest@ =~= text@.take(end as int));
    }
    Some(rest)
}

/// A text without leading blanks.
pub fn trim_start(text: &str, blank: Blank) -> (r: String)
    ensures
        r@ == trimmed_start(text@, blank),
{
    let letters = characters(text);
    let mut from: usize = 0;
    while from < letters.len()
        invariant
            letters@ == text@,
            from <= letters.len(),
            first_kept(text@, blank, 0) == first_kept(text@, blank, from as int),
        decreases letters.len() - from,
    {
        if !blank.cut(letters[from]) {
            let rest = piece(text, from, letters.len());
            proof {
                assert(rest@ =~= text@.skip(from as int));
            }
            return rest;
        }
        from = from + 1;
    }
    proof {
        reveal_strlit("");
        assert(""@ =~= text@.skip(text@.len() as int));
    }
    "".to_owned()
}

/// A text without blanks around it.
pub fn trim(text: &str, blank: Blank) -> (r: String)
    ensures
        r@ == trimmed(text@, blank),
{
    let rest = trim_start(text, blank);
    let letters = characters(rest.as_str());
    let mut end: usize = letters.len();
    while end > 0
        invariant
            letters@ == rest@,
            rest@ == trimmed_start(text@, blank),
            end <= letters.len(),
            last_kept(rest@, blank, rest@.len() as int) == last_kept(rest@, blank, end as int),
        decreases end,
    {
        if !blank.cut(letters[end - 1]) {
            let kept = piece(rest.as_str(), 0, end);
            proof {
                assert(kept@ =~= rest@.take(end as int));
            }
            return kept;
        }
        end = end - 1;
    }
    proof {
        reveal_strlit("");
        assert(""@ =~= rest@.take(0));
    }
    "".to_owned()
}

/// Whether nothing is left of a text without white space.
pub fn is_blank(text: &str) -> (r: bool)
    ensures
        r == (trimmed(text@, Blank::White).len() == 0),
{
    trim(text, Blank::White).as_str().unicode_len() == 0
}

} // verus!
