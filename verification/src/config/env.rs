//! Literal environment files and the environment of one Process.

use vstd::prelude::*;

use super::error::ConfigError;
use super::order::{add_name, drop_key, place, remove_name};
use super::paths::{resolve, FileContent, FileFacts};
use crate::model::duplicate_pairs;
use crate::scan::{find, piece, strip_prefix, trim, trim_start, Blank};
use crate::text::{characters, concat3, concat6, decimal_usize, push_char};

#[allow(unused_imports)]
use super::order::{
    adding_keeps_order, dropped, dropped_value_is_gone, entry_of, joined_name, keys_of,
    last_value_wins, leaving_keeps_order, left_name, ordered, other_values_outlast_a_drop,
    other_values_stay, placed,
};
#[allow(unused_imports)]
use super::paths::{resolved, ContentView};
#[allow(unused_imports)]
use crate::scan::{after_prefix, pair_view, trimmed, trimmed_start, word_position};
#[allow(unused_imports)]
use crate::text::{decimal_text, pairs, texts};

verus! {

/// Entries of an environment as mathematical values.
pub type Entries = Seq<(Seq<char>, Seq<char>)>;

/// A line without the carriage return at its end.
pub open spec fn without_return(line: Seq<char>) -> Seq<char> {
    if line.len() > 0 && line.last() == '\r' {
        line.drop_last()
    } else {
        line
    }
}

/// The lines in a text, where `current` stands before it. A line ends with a
/// line feed, which a carriage return may precede; the last one needs no end.
pub open spec fn lines_in(text: Seq<char>, current: Seq<char>) -> Seq<Seq<char>>
    decreases text.len(),
{
    if text.len() == 0 {
        if current.len() == 0 {
            Seq::empty()
        } else {
            seq![current]
        }
    } else if text[0] == '\n' {
        seq![without_return(current)] + lines_in(text.skip(1), Seq::empty())
    } else {
        lines_in(text.skip(1), current.push(text[0]))
    }
}

/// The lines of a text.
pub open spec fn lines_of(text: Seq<char>) -> Seq<Seq<char>> {
    lines_in(text, Seq::empty())
}

/// The lines of a text.
pub fn lines(text: &str) -> (r: Vec<String>)
    ensures
        texts(r@) == lines_of(text@),
{
    let letters = characters(text);
    let mut found: Vec<String> = Vec::new();
    let mut current = "".to_owned();
    let mut index: usize = 0;
    proof {
        reveal_strlit("");
        assert(current@ =~= Seq::<char>::empty());
        assert(text@.skip(0) =~= text@);
        assert(texts(found@) + lines_in(text@, Seq::empty()) =~= lines_of(text@));
    }
    while index < letters.len()
        invariant
            letters@ == text@,
            index <= letters.len(),
            texts(found@) + lines_in(text@.skip(index as int), current@) == lines_of(text@),
        decreases letters.len() - index,
    {
        let letter = letters[index];
        let ghost rest = text@.skip(index as int);
        let ghost before = texts(found@);
        proof {
            assert(rest[0] == letter);
            assert(rest.skip(1) =~= text@.skip(index + 1));
        }
        if letter == '\n' {
            let count: usize = current.as_str().unicode_len();
            let ghost whole = current@;
            let line = if count > 0 && current.as_str().get_char(count - 1) == '\r' {
                let line = piece(current.as_str(), 0, count - 1);
                proof {
                    assert(line@ =~= whole.drop_last());
                }
                line
            } else {
                current
            };
            let ghost finished = line@;
            found.push(line);
            current = "".to_owned();
            proof {
                reveal_strlit("");
                assert(current@ =~= Seq::<char>::empty());
                assert(texts(found@) =~= before.push(finished));
                assert(before + (seq![finished] + lines_in(rest.skip(1), Seq::empty())) =~= texts(
                    found@,
                ) + lines_in(rest.skip(1), Seq::empty()));
            }
        } else {
            push_char(&mut current, letter);
        }
        index = index + 1;
    }
    proof {
        assert(text@.skip(index as int) =~= Seq::<char>::empty());
    }
    if current.as_str().unicode_len() > 0 {
        let ghost before = texts(found@);
        let ghost finished = current@;
        found.push(current);
        proof {
            assert(texts(found@) =~= before + seq![finished]);
        }
    } else {
        proof {
            assert(texts(found@) + Seq::<Seq<char>>::empty() =~= texts(found@));
        }
    }
    found
}

/// A line without the word `export` and the blanks behind it.
pub open spec fn without_export(line: Seq<char>) -> Seq<char> {
    match after_prefix(line, "export"@) {
        Some(rest) => if rest.len() > 0 && (rest[0] == ' ' || rest[0] == '\t') {
            trimmed_start(rest, Blank::Horizontal)
        } else {
            line
        },
        None => line,
    }
}

/// A letter of ASCII.
pub open spec fn ascii_letter(character: char) -> bool {
    ('a' <= character && character <= 'z') || ('A' <= character && character <= 'Z')
}

/// A digit of ASCII.
pub open spec fn ascii_digit(character: char) -> bool {
    '0' <= character && character <= '9'
}

/// Whether a text is the name of a variable.
pub open spec fn is_key(key: Seq<char>) -> bool {
    &&& key.len() > 0
    &&& key[0] == '_' || ascii_letter(key[0])
    &&& forall|i: int|
        0 < i < key.len() ==> #[trigger] key[i] == '_' || ascii_letter(key[i]) || ascii_digit(
            key[i],
        )
}

/// Why a text is no name of a variable.
pub open spec fn key_fault(key: Seq<char>) -> Option<Seq<char>> {
    if key.len() == 0 {
        Some("environment key must not be empty"@)
    } else if !is_key(key) {
        Some(
            "invalid environment key '"@ + key
                + "'; use ASCII letters, digits, and '_' with a letter or '_' first"@,
        )
    } else {
        None
    }
}

/// The character that an escape stands for.
pub open spec fn escaped(character: char) -> Option<char> {
    if character == 'n' {
        Some('\n')
    } else if character == 'r' {
        Some('\r')
    } else if character == 't' {
        Some('\t')
    } else if character == '\\' {
        Some('\\')
    } else if character == '"' {
        Some('"')
    } else {
        None
    }
}

/// The value of a quoted text from position `at` on, behind what was already
/// read.
pub open spec fn quoted_from(raw: Seq<char>, quote: char, at: int, value: Seq<char>) -> Result<
    Seq<char>,
    Seq<char>,
>
    decreases raw.len() - at,
{
    if at < 0 || at >= raw.len() {
        Err("unterminated quoted value"@)
    } else if raw[at] == quote {
        if trimmed(raw.skip(at + 1), Blank::Horizontal).len() > 0 {
            Err("quoted value must end at the closing quote"@)
        } else {
            Ok(value)
        }
    } else if quote == '"' && raw[at] == '\\' {
        if at + 1 >= raw.len() {
            Err("double-quoted value ends with an escape"@)
        } else {
            match escaped(raw[at + 1]) {
                Some(character) => quoted_from(raw, quote, at + 2, value.push(character)),
                None => Err(
                    "unsupported escape '\\"@ + raw.subrange(at, at + 2)
                        + "' in double-quoted value"@,
                ),
            }
        }
    } else {
        quoted_from(raw, quote, at + 1, value.push(raw[at]))
    }
}

/// The value behind `=`.
pub open spec fn value_reading(text: Seq<char>) -> Result<Seq<char>, Seq<char>> {
    let raw = trimmed(text, Blank::Horizontal);
    if raw.len() == 0 {
        Ok(Seq::empty())
    } else if raw[0] == '\'' || raw[0] == '"' {
        quoted_from(raw, raw[0], 1, Seq::empty())
    } else if raw.contains('\'') || raw.contains('"') {
        Err("quotes must surround the complete value"@)
    } else {
        Ok(raw)
    }
}

/// The variable that a line sets, if it sets one.
pub open spec fn line_reading(line: Seq<char>) -> Result<
    Option<(Seq<char>, Seq<char>)>,
    Seq<char>,
> {
    let content = trimmed(line, Blank::Horizontal);
    if content.len() == 0 || content[0] == '#' {
        Ok(None)
    } else {
        let statement = without_export(content);
        match word_position(statement, "="@, 0) {
            None => Err("expected KEY=VALUE"@),
            Some(at) => {
                let key = trimmed(statement.take(at), Blank::Horizontal);
                match key_fault(key) {
                    Some(fault) => Err(fault),
                    None => match value_reading(statement.skip(at + 1)) {
                        Err(fault) => Err(fault),
                        Ok(value) => if value.contains('\0') {
                            Err("value must not contain a NUL character"@)
                        } else {
                            Ok(Some((key, value)))
                        },
                    },
                }
            },
        }
    }
}

fn has_char(text: &str, character: char) -> (r: bool)
    ensures
        r == text@.contains(character),
{
    let letters = characters(text);
    let mut index: usize = 0;
    while index < letters.len()
        invariant
            letters@ == text@,
            index <= letters.len(),
            forall|i: int| 0 <= i < index ==> text@[i] != character,
        decreases letters.len() - index,
    {
        if letters[index] == character {
            return true;
        }
        index = index + 1;
    }
    false
}

fn strip_export_prefix(line: &str) -> (r: String)
    ensures
        r@ == without_export(line@),
{
    match strip_prefix(line, "export") {
        Some(rest) => {
            if rest.as_str().unicode_len() > 0 && (rest.as_str().get_char(0) == ' '
                || rest.as_str().get_char(0) == '\t') {
                trim_start(rest.as_str(), Blank::Horizontal)
            } else {
                line.to_owned()
            }
        },
        None => line.to_owned(),
    }
}

fn is_letter(character: char) -> (r: bool)
    ensures
        r == ascii_letter(character),
{
    ('a' <= character && character <= 'z') || ('A' <= character && character <= 'Z')
}

fn is_digit(character: char) -> (r: bool)
    ensures
        r == ascii_digit(character),
{
    '0' <= character && character <= '9'
}

/// Why a text is no name of a variable.
pub fn validate_key(key: &str) -> (r: Result<(), String>)
    ensures
        (match r {
            Ok(_) => None,
            Err(fault) => Some(fault@),
        }) == key_fault(key@),
{
    let letters = characters(key);
    if letters.len() == 0 {
        return Err("environment key must not be empty".to_owned());
    }
    let mut valid = letters[0] == '_' || is_letter(letters[0]);
    let mut index: usize = 1;
    while index < letters.len()
        invariant
            letters@ == key@,
            1 <= index <= letters.len(),
            valid == ((key@[0] == '_' || ascii_letter(key@[0])) && forall|i: int|
                0 < i < index ==> #[trigger] key@[i] == '_' || ascii_letter(key@[i])
                    || ascii_digit(key@[i])),
        decreases letters.len() - index,
    {
        let character = letters[index];
        if !(character == '_' || is_letter(character) || is_digit(character)) {
            valid = false;
        }
        index = index + 1;
    }
    if !valid {
        return Err(
            concat3(
                "invalid environment key '",
                key,
                "'; use ASCII letters, digits, and '_' with a letter or '_' first",
            ),
        );
    }
    Ok(())
}

fn parse_quoted_value(raw: &str, quote: char) -> (r: Result<String, String>)
    requires
        raw@.len() > 0,
    ensures
        super::paths::text_result(r) == quoted_from(raw@, quote, 1, Seq::empty()),
{
    let letters = characters(raw);
    let mut value = "".to_owned();
    let mut index: usize = 1;
    proof {
        reveal_strlit("");
        assert(value@ =~= Seq::<char>::empty());
    }
    while index < letters.len()
        invariant
            letters@ == raw@,
            1 <= index <= letters.len(),
            quoted_from(raw@, quote, 1, Seq::empty()) == quoted_from(
                raw@,
                quote,
                index as int,
                value@,
            ),
        decreases letters.len() - index,
    {
        let character = letters[index];
        if character == quote {
            let rest = piece(raw, index + 1, letters.len());
            proof {
                assert(rest@ =~= raw@.skip(index + 1));
            }
            if trim(rest.as_str(), Blank::Horizontal).as_str().unicode_len() > 0 {
                return Err("quoted value must end at the closing quote".to_owned());
            }
            return Ok(value);
        }
        if quote == '"' && character == '\\' {
            if index + 1 >= letters.len() {
                return Err("double-quoted value ends with an escape".to_owned());
            }
            let replacement = match letters[index + 1] {
                'n' => '\n',
                'r' => '\r',
                't' => '\t',
                '\\' => '\\',
                '"' => '"',
                _ => {
                    let escape = piece(raw, index, index + 2);
                    return Err(
                        concat3(
                            "unsupported escape '\\",
                            escape.as_str(),
                            "' in double-quoted value",
                        ),
                    );
                },
            };
            push_char(&mut value, replacement);
            index = index + 2;
        } else {
            push_char(&mut value, character);
            index = index + 1;
        }
    }
    Err("unterminated quoted value".to_owned())
}

/// The value behind `=`.
pub fn parse_value(text: &str) -> (r: Result<String, String>)
    ensures
        super::paths::text_result(r) == value_reading(text@),
{
    let raw = trim(text, Blank::Horizontal);
    if raw.as_str().unicode_len() == 0 {
        proof {
            reveal_strlit("");
            assert(""@ =~= Seq::<char>::empty());
        }
        return Ok("".to_owned());
    }
    let quote = raw.as_str().get_char(0);
    if quote == '\'' || quote == '"' {
        return parse_quoted_value(raw.as_str(), quote);
    }
    if has_char(raw.as_str(), '\'') || has_char(raw.as_str(), '"') {
        return Err("quotes must surround the complete value".to_owned());
    }
    Ok(raw)
}

/// The variable that a line sets, if it sets one.
pub fn parse_line(line: &str) -> (r: Result<Option<(String, String)>, String>)
    ensures
        (match r {
            Ok(entry) => Ok(pair_view(entry)),
            Err(detail) => Err(detail@),
        }) == line_reading(line@),
{
    let content = trim(line, Blank::Horizontal);
    if content.as_str().unicode_len() == 0 || content.as_str().get_char(0) == '#' {
        return Ok(None);
    }
    let statement = strip_export_prefix(content.as_str());
    let at: usize = match find(statement.as_str(), "=") {
        Some(at) => at,
        None => {
            return Err("expected KEY=VALUE".to_owned());
        },
    };
    proof {
        reveal_strlit("=");
    }
    let before = piece(statement.as_str(), 0, at);
    let count: usize = statement.as_str().unicode_len();
    let after = piece(statement.as_str(), at + 1, count);
    proof {
        assert(before@ =~= statement@.take(at as int));
        assert(after@ =~= statement@.skip(at + 1));
    }
    let key = trim(before.as_str(), Blank::Horizontal);
    if let Err(fault) = validate_key(key.as_str()) {
        return Err(fault);
    }
    let value = match parse_value(after.as_str()) {
        Ok(value) => value,
        Err(fault) => {
            return Err(fault);
        },
    };
    if has_char(value.as_str(), '\0') {
        return Err("value must not contain a NUL character".to_owned());
    }
    Ok(Some((key, value)))
}

/// Whether so many bytes, and no more, are valid from the start.
pub open spec fn is_valid_up_to(bytes: Seq<u8>, count: int) -> bool {
    &&& 0 <= count <= bytes.len()
    &&& vstd::utf8::valid_utf8(bytes.take(count))
    &&& forall|more: int|
        count < more <= bytes.len() ==> !vstd::utf8::valid_utf8(#[trigger] bytes.take(more))
}

/// How many bytes are valid from the start.
pub open spec fn valid_up_to(bytes: Seq<u8>) -> int {
    choose|count: int| is_valid_up_to(bytes, count)
}

/// `String::from_utf8`: the text of bytes that are valid UTF-8. Of others,
/// `Utf8Error::valid_up_to` tells the longest valid start.
#[verifier::external_body]
fn decode(bytes: Vec<u8>) -> (r: Result<String, usize>)
    ensures
        r is Ok == vstd::utf8::valid_utf8(bytes@),
        r matches Ok(text) ==> text@ == vstd::utf8::decode_utf8(bytes@),
        r matches Err(count) ==> is_valid_up_to(bytes@, count as int),
{
    String::from_utf8(bytes).map_err(|error| error.utf8_error().valid_up_to())
}

/// The entries of an environment once lines from `from` on were read.
pub open spec fn lines_reading(
    lines: Seq<Seq<char>>,
    from: int,
    path: Seq<char>,
    owner: Seq<char>,
    entries: Entries,
) -> Result<Entries, Seq<char>>
    decreases lines.len() - from,
{
    if from < 0 || from >= lines.len() {
        Ok(entries)
    } else {
        match line_reading(lines[from]) {
            Err(detail) => Err(
                "invalid "@ + owner + " environment file '"@ + path + "' at line "@ + decimal_text(
                    (from + 1) as nat,
                ) + ": "@ + detail,
            ),
            Ok(None) => lines_reading(lines, from + 1, path, owner, entries),
            Ok(Some((key, value))) => lines_reading(
                lines,
                from + 1,
                path,
                owner,
                placed(entries, key, value),
            ),
        }
    }
}

/// The entries of an environment once one file was read.
pub open spec fn file_reading(
    content: ContentView,
    path: Seq<char>,
    owner: Seq<char>,
    entries: Entries,
) -> Result<Entries, Seq<char>> {
    match content {
        ContentView::Unreadable(detail) => Err(
            "could not read "@ + owner + " environment file '"@ + path + "': "@ + detail,
        ),
        ContentView::Bytes(bytes) => if vstd::utf8::valid_utf8(bytes) {
            lines_reading(lines_of(vstd::utf8::decode_utf8(bytes)), 0, path, owner, entries)
        } else {
            Err(
                "invalid UTF-8 in "@ + owner + " environment file '"@ + path + "' at byte "@
                    + decimal_text(valid_up_to(bytes) as nat),
            )
        },
    }
}

/// The entries of an environment once files from `from` on were read.
pub open spec fn files_reading(
    base: Seq<char>,
    files: Seq<Seq<char>>,
    from: int,
    owner: Seq<char>,
    facts: FileFacts,
    entries: Entries,
) -> Result<Entries, Seq<char>>
    decreases files.len() - from,
{
    if from < 0 || from >= files.len() {
        Ok(entries)
    } else {
        let path = resolved(base, files[from]);
        match file_reading(facts.content_of(path), path, owner, entries) {
            Err(message) => Err(message),
            Ok(next) => files_reading(base, files, from + 1, owner, facts, next),
        }
    }
}

/// Entries or a failure as mathematical values.
pub open spec fn entries_result(result: Result<Vec<(String, String)>, ConfigError>) -> Result<
    Entries,
    Seq<char>,
> {
    match result {
        Ok(entries) => Ok(pairs(entries@)),
        Err(error) => Err(error.message@),
    }
}

fn read_lines(
    lines: &Vec<String>,
    path: &str,
    owner: &str,
    known: Vec<(String, String)>,
) -> (r: Result<Vec<(String, String)>, ConfigError>)
    ensures
        entries_result(r) == lines_reading(texts(lines@), 0, path@, owner@, pairs(known@)),
{
    let mut entries = known;
    let ghost start = pairs(entries@);
    let ghost all = texts(lines@);
    let mut index: usize = 0;
    while index < lines.len()
        invariant
            all == texts(lines@),
            start == pairs(known@),
            index <= lines.len(),
            lines_reading(all, 0, path@, owner@, start) == lines_reading(
                all,
                index as int,
                path@,
                owner@,
                pairs(entries@),
            ),
        decreases lines.len() - index,
    {
        proof {
            assert(all[index as int] == lines@[index as int]@);
        }
        match parse_line(lines[index].as_str()) {
            Err(detail) => {
                let number = decimal_usize(index + 1);
                return Err(
                    ConfigError {
                        message: crate::text::concat8(
                            "invalid ",
                            owner,
                            " environment file '",
                            path,
                            "' at line ",
                            number.as_str(),
                            ": ",
                            detail.as_str(),
                        ),
                    },
                );
            },
            Ok(None) => {},
            Ok(Some((key, value))) => {
                place(&mut entries, key.as_str(), value.as_str());
            },
        }
        index = index + 1;
    }
    Ok(entries)
}

fn read_file(
    content: FileContent,
    path: &str,
    owner: &str,
    entries: Vec<(String, String)>,
) -> (r: Result<Vec<(String, String)>, ConfigError>)
    ensures
        entries_result(r) == file_reading(content@, path@, owner@, pairs(entries@)),
{
    match content {
        FileContent::Unreadable(detail) => Err(
            ConfigError {
                message: concat6(
                    "could not read ",
                    owner,
                    " environment file '",
                    path,
                    "': ",
                    detail.as_str(),
                ),
            },
        ),
        FileContent::Bytes(bytes) => {
            let ghost raw = bytes@;
            match decode(bytes) {
                Ok(text) => read_lines(&lines(text.as_str()), path, owner, entries),
                Err(count) => {
                    proof {
                        let other = valid_up_to(raw);
                        assert(is_valid_up_to(raw, count as int));
                        assert(is_valid_up_to(raw, other));
                        if other < count {
                            assert(!vstd::utf8::valid_utf8(raw.take(count as int)));
                        } else if count < other {
                            assert(!vstd::utf8::valid_utf8(raw.take(other)));
                        }
                    }
                    let number = decimal_usize(count);
                    Err(
                        ConfigError {
                            message: concat6(
                                "invalid UTF-8 in ",
                                owner,
                                " environment file '",
                                path,
                                "' at byte ",
                                number.as_str(),
                            ),
                        },
                    )
                },
            }
        },
    }
}

/// Load ordered literal environment files for one configuration owner. Later
/// entries replace earlier entries, including entries in the same file.
pub fn load_files(
    base_dir: &str,
    files: &Vec<String>,
    owner: &str,
    facts: &FileFacts,
    start: Vec<(String, String)>,
) -> (r: Result<Vec<(String, String)>, ConfigError>)
    ensures
        entries_result(r) == files_reading(
            base_dir@,
            texts(files@),
            0,
            owner@,
            *facts,
            pairs(start@),
        ),
{
    let mut entries = start;
    let ghost first = pairs(entries@);
    let ghost all = texts(files@);
    let mut index: usize = 0;
    while index < files.len()
        invariant
            all == texts(files@),
            first == pairs(start@),
            index <= files.len(),
            files_reading(base_dir@, all, 0, owner@, *facts, first) == files_reading(
                base_dir@,
                all,
                index as int,
                owner@,
                *facts,
                pairs(entries@),
            ),
        decreases files.len() - index,
    {
        proof {
            assert(all[index as int] == files@[index as int]@);
        }
        let path = resolve(base_dir, files[index].as_str());
        match read_file(facts.content(path.as_str()), path.as_str(), owner, entries) {
            Ok(next) => {
                entries = next;
            },
            Err(error) => {
                return Err(error);
            },
        }
        index = index + 1;
    }
    Ok(entries)
}

/// The resolved changes to one child environment. Values not listed in
/// `removals` remain inherited from the Supervisor's parent process.
#[derive(Clone, Debug, PartialEq, Eq)]
pub struct ResolvedEnvironment {
    pub values: Vec<(String, String)>,
    pub removals: Vec<String>,
}

/// Inline entries of an environment as mathematical values.
pub open spec fn inline_entries(entries: Seq<(String, Option<String>)>) -> Seq<
    (Seq<char>, Option<Seq<char>>),
> {
    entries.map_values(
        |entry: (String, Option<String>)| (entry.0@, crate::scan::option_view(entry.1)),
    )
}

/// An environment once inline entries from `from` on were applied: a value
/// replaces what was set before, and null removes the variable.
pub open spec fn with_inline(
    inline: Seq<(Seq<char>, Option<Seq<char>>)>,
    from: int,
    values: Entries,
    removals: Seq<Seq<char>>,
) -> (Entries, Seq<Seq<char>>)
    decreases inline.len() - from,
{
    if from < 0 || from >= inline.len() {
        (values, removals)
    } else {
        match inline[from].1 {
            Some(value) => with_inline(
                inline,
                from + 1,
                placed(values, inline[from].0, value),
                left_name(removals, inline[from].0),
            ),
            None => with_inline(
                inline,
                from + 1,
                dropped(values, inline[from].0),
                joined_name(removals, inline[from].0),
            ),
        }
    }
}

/// The environment of one Process.
pub open spec fn environment_reading(
    files: Seq<Seq<char>>,
    inline: Seq<(Seq<char>, Option<Seq<char>>)>,
    name: Seq<char>,
    base: Seq<char>,
    project: Entries,
    facts: FileFacts,
) -> Result<(Entries, Seq<Seq<char>>), Seq<char>> {
    match files_reading(base, files, 0, "Process '"@ + name + "'"@, facts, project) {
        Err(message) => Err(message),
        Ok(values) => Ok(with_inline(inline, 0, values, Seq::empty())),
    }
}

/// Assemble one Process environment from Project files, Process files, and
/// inline values. Each later layer replaces an earlier value. Null inline
/// values are retained as removals so the runtime can remove them from the
/// inherited parent environment.
pub fn build_process_environment(
    files: &Vec<String>,
    inline: &Vec<(String, Option<String>)>,
    name: &str,
    base_dir: &str,
    project_environment: &Vec<(String, String)>,
    facts: &FileFacts,
) -> (r: Result<ResolvedEnvironment, ConfigError>)
    ensures
        (match r {
            Ok(environment) => Ok((pairs(environment.values@), texts(environment.removals@))),
            Err(error) => Err(error.message@),
        }) == environment_reading(
            texts(files@),
            inline_entries(inline@),
            name@,
            base_dir@,
            pairs(project_environment@),
            *facts,
        ),
{
    let owner = concat3("Process '", name, "'");
    let project = duplicate_pairs(project_environment);
    let mut values = match load_files(base_dir, files, owner.as_str(), facts, project) {
        Ok(values) => values,
        Err(error) => {
            return Err(error);
        },
    };
    let mut removals: Vec<String> = Vec::new();
    let ghost all = inline_entries(inline@);
    let ghost first = pairs(values@);
    let mut index: usize = 0;
    proof {
        assert(texts(removals@) =~= Seq::<Seq<char>>::empty());
    }
    while index < inline.len()
        invariant
            all == inline_entries(inline@),
            index <= inline.len(),
            with_inline(all, 0, first, Seq::empty()) == with_inline(
                all,
                index as int,
                pairs(values@),
                texts(removals@),
            ),
        decreases inline.len() - index,
    {
        proof {
            assert(all[index as int] == (
                inline@[index as int].0@,
                crate::scan::option_view(inline@[index as int].1),
            ));
        }
        let key = inline[index].0.as_str();
        match &inline[index].1 {
            Some(value) => {
                place(&mut values, key, value.as_str());
                remove_name(&mut removals, key);
            },
            None => {
                drop_key(&mut values, key);
                add_name(&mut removals, key);
            },
        }
        index = index + 1;
    }
    Ok(ResolvedEnvironment { values, removals })
}

proof fn lines_keep_order(
    lines: Seq<Seq<char>>,
    from: int,
    path: Seq<char>,
    owner: Seq<char>,
    entries: Entries,
)
    requires
        0 <= from <= lines.len(),
        ordered(keys_of(entries)),
    ensures
        lines_reading(lines, from, path, owner, entries) matches Ok(values) ==> ordered(
            keys_of(values),
        ),
    decreases lines.len() - from,
{
    if from < lines.len() {
        match line_reading(lines[from]) {
            Err(_) => {},
            Ok(None) => {
                lines_keep_order(lines, from + 1, path, owner, entries);
            },
            Ok(Some((key, value))) => {
                last_value_wins(entries, key, value);
                lines_keep_order(lines, from + 1, path, owner, placed(entries, key, value));
            },
        }
    }
}

/// Reading environment files keeps the variables in order, each once.
pub proof fn files_keep_order(
    base: Seq<char>,
    files: Seq<Seq<char>>,
    from: int,
    owner: Seq<char>,
    facts: FileFacts,
    entries: Entries,
)
    requires
        0 <= from <= files.len(),
        ordered(keys_of(entries)),
    ensures
        files_reading(base, files, from, owner, facts, entries) matches Ok(values) ==> ordered(
            keys_of(values),
        ),
    decreases files.len() - from,
{
    if from < files.len() {
        let path = resolved(base, files[from]);
        let content = facts.content_of(path);
        if let ContentView::Bytes(bytes) = content {
            if vstd::utf8::valid_utf8(bytes) {
                lines_keep_order(
                    lines_of(vstd::utf8::decode_utf8(bytes)),
                    0,
                    path,
                    owner,
                    entries,
                );
            }
        }
        if let Ok(next) = file_reading(content, path, owner, entries) {
            files_keep_order(base, files, from + 1, owner, facts, next);
        }
    }
}

proof fn inline_keeps_order(
    inline: Seq<(Seq<char>, Option<Seq<char>>)>,
    from: int,
    values: Entries,
    removals: Seq<Seq<char>>,
    key: Seq<char>,
)
    requires
        0 <= from <= inline.len(),
        ordered(keys_of(values)),
        ordered(removals),
        forall|i: int| from <= i < inline.len() ==> (#[trigger] inline[i]).0 != key,
    ensures
        ordered(keys_of(with_inline(inline, from, values, removals).0)),
        ordered(with_inline(inline, from, values, removals).1),
        entry_of(with_inline(inline, from, values, removals).0, key) == entry_of(values, key),
        with_inline(inline, from, values, removals).1.contains(key) == removals.contains(key),
    decreases inline.len() - from,
{
    if from < inline.len() {
        let name = inline[from].0;
        match inline[from].1 {
            Some(value) => {
                last_value_wins(values, name, value);
                other_values_stay(values, name, value, key);
                leaving_keeps_order(removals, name);
                inline_keeps_order(
                    inline,
                    from + 1,
                    placed(values, name, value),
                    left_name(removals, name),
                    key,
                );
            },
            None => {
                dropped_value_is_gone(values, name);
                other_values_outlast_a_drop(values, name, key);
                adding_keeps_order(removals, name);
                inline_keeps_order(
                    inline,
                    from + 1,
                    dropped(values, name),
                    joined_name(removals, name),
                    key,
                );
            },
        }
    }
}

/// A variable that no inline entry names keeps the value that the files gave
/// it, and is not removed from what the Process inherits.
pub proof fn unnamed_variables_stay(
    inline: Seq<(Seq<char>, Option<Seq<char>>)>,
    values: Entries,
    key: Seq<char>,
)
    requires
        ordered(keys_of(values)),
        forall|i: int| 0 <= i < inline.len() ==> (#[trigger] inline[i]).0 != key,
    ensures
        entry_of(with_inline(inline, 0, values, Seq::empty()).0, key) == entry_of(values, key),
        !with_inline(inline, 0, values, Seq::empty()).1.contains(key),
{
    inline_keeps_order(inline, 0, values, Seq::empty(), key);
}

proof fn inline_entry_wins(
    inline: Seq<(Seq<char>, Option<Seq<char>>)>,
    from: int,
    values: Entries,
    removals: Seq<Seq<char>>,
    at: int,
)
    requires
        0 <= from <= at < inline.len(),
        ordered(keys_of(values)),
        ordered(removals),
        forall|i: int| at < i < inline.len() ==> (#[trigger] inline[i]).0 != inline[at].0,
    ensures
        entry_of(with_inline(inline, from, values, removals).0, inline[at].0) == inline[at].1,
        with_inline(inline, from, values, removals).1.contains(inline[at].0) == (inline[at].1
            is None),
    decreases at - from,
{
    let name = inline[from].0;
    let (next, left) = match inline[from].1 {
        Some(value) => (placed(values, name, value), left_name(removals, name)),
        None => (dropped(values, name), joined_name(removals, name)),
    };
    match inline[from].1 {
        Some(value) => {
            last_value_wins(values, name, value);
            leaving_keeps_order(removals, name);
            assert(!left_name(removals, name).contains(name));
        },
        None => {
            dropped_value_is_gone(values, name);
            adding_keeps_order(removals, name);
            assert(joined_name(removals, name).contains(name));
        },
    }
    if from < at {
        inline_entry_wins(inline, from + 1, next, left, at);
    } else {
        inline_keeps_order(inline, from + 1, next, left, name);
    }
}

/// The last inline entry of a variable decides: its value replaces what the
/// files gave, and null takes the variable away and keeps it as a removal.
pub proof fn inline_entries_win(
    inline: Seq<(Seq<char>, Option<Seq<char>>)>,
    values: Entries,
    at: int,
)
    requires
        ordered(keys_of(values)),
        0 <= at < inline.len(),
        forall|i: int| at < i < inline.len() ==> (#[trigger] inline[i]).0 != inline[at].0,
    ensures
        entry_of(with_inline(inline, 0, values, Seq::empty()).0, inline[at].0) == inline[at].1,
        with_inline(inline, 0, values, Seq::empty()).1.contains(inline[at].0) == (inline[at].1
            is None),
{
    inline_entry_wins(inline, 0, values, Seq::empty(), at);
}

proof fn inline_from_stays_ordered(
    inline: Seq<(Seq<char>, Option<Seq<char>>)>,
    from: int,
    values: Entries,
    removals: Seq<Seq<char>>,
)
    requires
        0 <= from <= inline.len(),
        ordered(keys_of(values)),
        ordered(removals),
    ensures
        ordered(keys_of(with_inline(inline, from, values, removals).0)),
        ordered(with_inline(inline, from, values, removals).1),
    decreases inline.len() - from,
{
    if from < inline.len() {
        let name = inline[from].0;
        match inline[from].1 {
            Some(value) => {
                last_value_wins(values, name, value);
                leaving_keeps_order(removals, name);
                inline_from_stays_ordered(
                    inline,
                    from + 1,
                    placed(values, name, value),
                    left_name(removals, name),
                );
            },
            None => {
                dropped_value_is_gone(values, name);
                adding_keeps_order(removals, name);
                inline_from_stays_ordered(
                    inline,
                    from + 1,
                    dropped(values, name),
                    joined_name(removals, name),
                );
            },
        }
    }
}

/// Inline entries keep the variables and the removals in order, each once.
pub proof fn inline_variables_stay_ordered(
    inline: Seq<(Seq<char>, Option<Seq<char>>)>,
    values: Entries,
)
    requires
        ordered(keys_of(values)),
    ensures
        ordered(keys_of(with_inline(inline, 0, values, Seq::empty()).0)),
        ordered(with_inline(inline, 0, values, Seq::empty()).1),
{
    inline_from_stays_ordered(inline, 0, values, Seq::empty());
}

} // verus!
