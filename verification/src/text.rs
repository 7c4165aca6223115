//! Character-level text helpers shared by every module.

use vstd::prelude::*;

verus! {

/// Texts as character sequences.
pub open spec fn texts(values: Seq<String>) -> Seq<Seq<char>> {
    values.map_values(|value: String| value@)
}

/// Key and value entries as character sequences.
pub open spec fn pairs(entries: Seq<(String, String)>) -> Seq<(Seq<char>, Seq<char>)> {
    entries.map_values(|entry: (String, String)| (entry.0@, entry.1@))
}

/// Whether a word stands in a text at a character.
pub open spec fn word_at(text: Seq<char>, word: Seq<char>, at: int) -> bool {
    0 <= at && at + word.len() <= text.len() && text.subrange(at, at + word.len()) == word
}

/// Whether two texts hold the same characters.
pub fn same_text(a: &str, b: &str) -> (r: bool)
    ensures
        r == (a@ == b@),
{
    a.to_owned() == b.to_owned()
}

/// Append one character through `String::push`, which adds it at the end.
#[verifier::external_body]
pub(crate) fn push_char(text: &mut String, character: char)
    ensures
        final(text)@ == old(text)@.push(character),
{
    text.push(character);
}

/// The characters of a text, in order.
pub fn characters(text: &str) -> (r: Vec<char>)
    ensures
        r@ == text@,
{
    let mut result: Vec<char> = Vec::new();
    for c in it: text.chars()
        invariant
            it.seq() == text@,
            result@ == text@.take(it.index() as int),
    {
        proof {
            assert(text@.take(it.index() + 1) == text@.take(it.index() as int).push(text@[it.index() as int]));
        }
        result.push(c);
    }
    proof {
        assert(text@.take(text@.len() as int) == text@);
    }
    result
}

/// How many bytes UTF-8 gives one character.
pub open spec fn utf8_size(character: char) -> nat {
    let scalar = character as u32;
    if scalar < 0x80 {
        1
    } else if scalar < 0x800 {
        2
    } else if scalar < 0x1_0000 {
        3
    } else {
        4
    }
}

/// How many bytes UTF-8 gives a text.
pub open spec fn byte_len(text: Seq<char>) -> nat
    decreases text.len(),
{
    if text.len() == 0 {
        0
    } else {
        byte_len(text.drop_last()) + utf8_size(text.last())
    }
}

/// The byte at which character `index` starts.
pub open spec fn byte_start(text: Seq<char>, index: int) -> nat {
    byte_len(text.take(index))
}

/// The first character that starts at or after a byte, or the text's end.
pub open spec fn index_at_byte(text: Seq<char>, byte: int, from: int) -> int
    decreases text.len() - from,
{
    if from < 0 || from >= text.len() {
        text.len() as int
    } else if byte_start(text, from) >= byte {
        from
    } else {
        index_at_byte(text, byte, from + 1)
    }
}

/// The characters that start in a range of bytes.
pub open spec fn between_bytes(text: Seq<char>, from: int, to: int) -> Seq<char> {
    let start = index_at_byte(text, from, 0);
    let end = index_at_byte(text, to, 0);
    if start <= end {
        text.subrange(start, end)
    } else {
        Seq::empty()
    }
}

/// The parts of a list one after the other, with a separator in between.
pub open spec fn joined(parts: Seq<Seq<char>>, separator: Seq<char>) -> Seq<char>
    decreases parts.len(),
{
    if parts.len() == 0 {
        Seq::empty()
    } else if parts.len() == 1 {
        parts[0]
    } else {
        joined(parts.drop_last(), separator) + separator + parts.last()
    }
}

proof fn encoded_length(text: Seq<char>)
    ensures
        vstd::utf8::encode_utf8(text).len() == byte_len(text),
    decreases text.len(),
{
    if text.len() > 0 {
        encoded_append(text.drop_last(), text.last());
        assert(text.drop_last().push(text.last()) =~= text);
        encoded_length(text.drop_last());
    }
}

proof fn encoded_append(text: Seq<char>, character: char)
    ensures
        vstd::utf8::encode_utf8(text.push(character)).len() == vstd::utf8::encode_utf8(text).len()
            + utf8_size(character),
    decreases text.len(),
{
    vstd::utf8::char_is_scalar(character);
    assert(vstd::utf8::encode_scalar(character as u32).len() == utf8_size(character));
    reveal_with_fuel(vstd::utf8::encode_utf8, 2);
    if text.len() == 0 {
        assert(text.push(character).drop_first() =~= Seq::<char>::empty());
    } else {
        assert(text.push(character).drop_first() =~= text.drop_first().push(character));
        encoded_append(text.drop_first(), character);
    }
}

/// A longer beginning of a text has at least as many bytes.
pub proof fn byte_start_monotone(text: Seq<char>, a: int, b: int)
    requires
        0 <= a <= b <= text.len(),
    ensures
        byte_start(text, a) <= byte_start(text, b),
        byte_start(text, b) <= byte_len(text),
        b - a <= byte_start(text, b) - byte_start(text, a),
    decreases b - a, text.len() - b,
{
    if a < b {
        assert(text.take(b).drop_last() =~= text.take(b - 1));
        byte_start_monotone(text, a, b - 1);
    }
    if b == text.len() {
        assert(text.take(b) =~= text);
    } else if a == b {
        byte_start_monotone_end(text, b);
    } else {
        byte_start_monotone_end(text, b);
    }
}

proof fn byte_start_monotone_end(text: Seq<char>, b: int)
    requires
        0 <= b <= text.len(),
    ensures
        byte_start(text, b) <= byte_len(text),
    decreases text.len() - b,
{
    if b == text.len() {
        assert(text.take(b) =~= text);
    } else {
        assert(text.take(b + 1).drop_last() =~= text.take(b));
        byte_start_monotone_end(text, b + 1);
    }
}

/// One character further adds its bytes.
pub proof fn byte_start_step(text: Seq<char>, index: int)
    requires
        0 <= index < text.len(),
    ensures
        byte_start(text, index + 1) == byte_start(text, index) + utf8_size(text[index]),
        byte_start(text, index + 1) <= byte_len(text),
{
    assert(text.take(index + 1).drop_last() =~= text.take(index));
    byte_start_monotone_end(text, index + 1);
}

proof fn index_of_a_start(text: Seq<char>, index: int, from: int)
    requires
        0 <= from <= index <= text.len(),
    ensures
        index_at_byte(text, byte_start(text, index) as int, from) == index,
    decreases index - from,
{
    byte_start_monotone(text, from, index);
    if from < index {
        index_of_a_start(text, index, from + 1);
    }
}

/// The bytes between the ends of two prefixes hold the characters between
/// them.
pub proof fn bytes_hold_their_characters(text: Seq<char>, from: int, to: int)
    requires
        0 <= from <= to <= text.len(),
    ensures
        between_bytes(text, byte_len(text.take(from)) as int, byte_len(text.take(to)) as int)
            == text.subrange(from, to),
{
    index_of_a_start(text, from, 0);
    index_of_a_start(text, to, 0);
}

/// The bytes of a text.
pub fn byte_length(text: &str) -> (r: usize)
    ensures
        r == byte_len(text@),
{
    proof {
        encoded_length(text@);
    }
    text.as_bytes().len()
}

/// The bytes of one character.
pub fn utf8_width(character: char) -> (r: usize)
    ensures
        r == utf8_size(character),
{
    let scalar: u32 = character as u32;
    if scalar < 0x80 {
        1
    } else if scalar < 0x800 {
        2
    } else if scalar < 0x1_0000 {
        3
    } else {
        4
    }
}

/// The first character that starts at or after a byte, or the text's end.
pub fn char_index_at_byte(text: &Vec<char>, byte: usize) -> (r: usize)
    requires
        byte_len(text@) <= usize::MAX,
    ensures
        r == index_at_byte(text@, byte as int, 0),
        r <= text.len(),
{
    let mut index: usize = 0;
    let mut start: usize = 0;
    while index < text.len() && start < byte
        invariant
            index <= text.len(),
            byte_len(text@) <= usize::MAX,
            start == byte_start(text@, index as int),
            index_at_byte(text@, byte as int, 0) == index_at_byte(text@, byte as int, index as int),
        decreases text.len() - index,
    {
        proof {
            byte_start_step(text@, index as int);
        }
        start = start + utf8_width(text[index]);
        index = index + 1;
    }
    index
}

/// The characters of a text that start in a range of bytes.
pub fn slice_between_bytes(text: &str, from: usize, to: usize) -> (r: String)
    ensures
        r@ == between_bytes(text@, from as int, to as int),
{
    let _ = byte_length(text);
    let all = characters(text);
    let start = char_index_at_byte(&all, from);
    let end = char_index_at_byte(&all, to);
    if start <= end {
        text.substring_char(start, end).to_owned()
    } else {
        String::new()
    }
}

/// Join texts with a separator in between.
pub fn join(parts: &Vec<String>, separator: &str) -> (r: String)
    ensures
        r@ == joined(texts(parts@), separator@),
{
    let mut result = String::new();
    let mut index: usize = 0;
    while index < parts.len()
        invariant
            index <= parts.len(),
            result@ == joined(texts(parts@).take(index as int), separator@),
        decreases parts.len() - index,
    {
        let ghost before = texts(parts@).take(index as int);
        if index > 0 {
            result.append(separator);
        }
        result.append(parts[index].as_str());
        index = index + 1;
        proof {
            let now = texts(parts@).take(index as int);
            assert(now.drop_last() =~= before);
            assert(now.last() == parts@[index - 1]@);
            if index == 1 {
                assert(result@ =~= now[0]);
            }
        }
    }
    proof {
        assert(texts(parts@).take(index as int) =~= texts(parts@));
    }
    result
}

/// The character of a decimal digit.
pub open spec fn digit_character(digit: int) -> char {
    if digit == 0 {
        '0'
    } else if digit == 1 {
        '1'
    } else if digit == 2 {
        '2'
    } else if digit == 3 {
        '3'
    } else if digit == 4 {
        '4'
    } else if digit == 5 {
        '5'
    } else if digit == 6 {
        '6'
    } else if digit == 7 {
        '7'
    } else if digit == 8 {
        '8'
    } else {
        '9'
    }
}

/// The decimal digits of a number without leading zeros.
pub open spec fn decimal_text(number: nat) -> Seq<char>
    decreases number,
{
    if number < 10 {
        seq![digit_character(number as int)]
    } else {
        decimal_text(number / 10).push(digit_character((number % 10) as int))
    }
}

/// The character of a decimal digit.
fn digit(value: u8) -> (r: char)
    requires
        value < 10,
    ensures
        r == digit_character(value as int),
{
    if value == 0 {
        '0'
    } else if value == 1 {
        '1'
    } else if value == 2 {
        '2'
    } else if value == 3 {
        '3'
    } else if value == 4 {
        '4'
    } else if value == 5 {
        '5'
    } else if value == 6 {
        '6'
    } else if value == 7 {
        '7'
    } else if value == 8 {
        '8'
    } else {
        '9'
    }
}

/// The decimal digits of a number.
pub fn decimal(number: u128) -> (r: String)
    ensures
        r@ == decimal_text(number as nat),
    decreases number,
{
    let mut result = if number < 10 {
        String::new()
    } else {
        decimal(number / 10)
    };
    push_char(&mut result, digit((number % 10) as u8));
    proof {
        if number < 10 {
            assert(result@ =~= seq![digit_character(number as int)]);
        }
    }
    result
}

/// The decimal digits of a number.
pub fn decimal_usize(number: usize) -> (r: String)
    ensures
        r@ == decimal_text(number as nat),
{
    decimal(number as u128)
}

/// The decimal digits of a number.
pub fn decimal_u64(number: u64) -> (r: String)
    ensures
        r@ == decimal_text(number as nat),
{
    decimal(number as u128)
}

/// The control characters: C0, delete and C1.
pub open spec fn control_character(character: char) -> bool {
    (character as u32) < 0x20 || 0x7f <= (character as u32) < 0xa0
}

/// Whether a character is a control character.
pub fn is_control(character: char) -> (r: bool)
    ensures
        r == control_character(character),
{
    let scalar: u32 = character as u32;
    scalar < 0x20 || (0x7f <= scalar && scalar < 0xa0)
}

/// One more character adds its bytes.
pub proof fn byte_len_push(text: Seq<char>, character: char)
    ensures
        byte_len(text.push(character)) == byte_len(text) + utf8_size(character),
{
    assert(text.push(character).drop_last() =~= text);
}

/// A text without its last character.
pub fn without_last(text: &str) -> (r: String)
    ensures
        r@ == (if text@.len() == 0 {
            text@
        } else {
            text@.drop_last()
        }),
{
    let count: usize = text.unicode_len();
    if count == 0 {
        return text.to_owned();
    }
    let shorter = text.substring_char(0, count - 1).to_owned();
    proof {
        assert(shorter@ =~= text@.drop_last());
    }
    shorter
}

/// Two texts in a row.
pub fn concat2(a: &str, b: &str) -> (r: String)
    ensures
        r@ == a@ + b@,
{
    let mut text = a.to_owned();
    text.append(b);
    text
}

/// Three texts in a row.
pub fn concat3(a: &str, b: &str, c: &str) -> (r: String)
    ensures
        r@ == a@ + b@ + c@,
{
    let mut text = a.to_owned();
    text.append(b);
    text.append(c);
    text
}

/// Four texts in a row.
pub fn concat4(a: &str, b: &str, c: &str, d: &str) -> (r: String)
    ensures
        r@ == a@ + b@ + c@ + d@,
{
    let mut text = a.to_owned();
    text.append(b);
    text.append(c);
    text.append(d);
    text
}

/// Five texts in a row.
pub fn concat5(a: &str, b: &str, c: &str, d: &str, e: &str) -> (r: String)
    ensures
        r@ == a@ + b@ + c@ + d@ + e@,
{
    let mut text = a.to_owned();
    text.append(b);
    text.append(c);
    text.append(d);
    text.append(e);
    text
}

/// Six texts in a row.
pub fn concat6(a: &str, b: &str, c: &str, d: &str, e: &str, f: &str) -> (r: String)
    ensures
        r@ == a@ + b@ + c@ + d@ + e@ + f@,
{
    let mut text = a.to_owned();
    text.append(b);
    text.append(c);
    text.append(d);
    text.append(e);
    text.append(f);
    text
}

/// Seven texts in a row.
pub fn concat7(a: &str, b: &str, c: &str, d: &str, e: &str, f: &str, g: &str) -> (r: String)
    ensures
        r@ == a@ + b@ + c@ + d@ + e@ + f@ + g@,
{
    let mut text = a.to_owned();
    text.append(b);
    text.append(c);
    text.append(d);
    text.append(e);
    text.append(f);
    text.append(g);
    text
}

/// Eight texts in a row.
pub fn concat8(a: &str, b: &str, c: &str, d: &str, e: &str, f: &str, g: &str, h: &str) -> (r: String)
    ensures
        r@ == a@ + b@ + c@ + d@ + e@ + f@ + g@ + h@,
{
    let mut text = a.to_owned();
    text.append(b);
    text.append(c);
    text.append(d);
    text.append(e);
    text.append(f);
    text.append(g);
    text.append(h);
    text
}

} // verus!
