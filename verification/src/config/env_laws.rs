//! What an environment file says is what a Process gets.

use vstd::prelude::*;

#[allow(unused_imports)]
use super::env::{
    escaped, is_key, key_fault, line_reading, lines_in, lines_of, lines_reading, quoted_from,
    value_reading, without_export, without_return, Entries,
};
#[allow(unused_imports)]
use super::order::{entry_of, keys_of, last_value_wins, ordered, other_values_stay, placed};
#[allow(unused_imports)]
use crate::scan::{
    after_prefix, begins, first_kept, last_kept, trimmed, trimmed_start, word_position, Blank,
};
#[allow(unused_imports)]
use crate::text::word_at;

verus! {

/// Whether a character may stand in the name of a variable.
pub open spec fn name_character(character: char) -> bool {
    ||| 'a' <= character <= 'z'
    ||| 'A' <= character <= 'Z'
    ||| '0' <= character <= '9'
    ||| character == '_'
}

/// Whether a text names a variable: letters, digits and underscores, and no
/// digit first.
pub open spec fn variable_name(name: Seq<char>) -> bool {
    &&& name.len() > 0
    &&& forall|i: int| 0 <= i < name.len() ==> name_character(#[trigger] name[i])
    &&& !('0' <= name[0] <= '9')
}

/// Whether a text has a blank at neither end.
pub open spec fn unpadded(text: Seq<char>) -> bool {
    text.len() > 0 ==> {
        &&& text[0] != ' ' && text[0] != '\t'
        &&& text.last() != ' ' && text.last() != '\t'
    }
}

/// Names of variables are accepted, and nothing else is.
pub proof fn names_are_accepted(name: Seq<char>)
    ensures
        key_fault(name) is None <==> variable_name(name),
{
    if variable_name(name) {
        assert(name_character(name[0]));
        assert forall|i: int| 0 < i < name.len() implies #[trigger] name[i] == '_'
            || super::env::ascii_letter(name[i]) || super::env::ascii_digit(name[i]) by {
            assert(name_character(name[i]));
        }
    }
}

proof fn unpadded_stays(text: Seq<char>)
    requires
        unpadded(text),
    ensures
        trimmed(text, Blank::Horizontal) == text,
        trimmed_start(text, Blank::Horizontal) == text,
{
    assert(first_kept(text, Blank::Horizontal, 0) == 0);
    assert(text.skip(0) =~= text);
    assert(last_kept(text, Blank::Horizontal, text.len() as int) == text.len());
    assert(text.take(text.len() as int) =~= text);
}

proof fn sign_is_found(text: Seq<char>, at: int, from: int)
    requires
        0 <= from <= at < text.len(),
        text[at] == '=',
        forall|i: int| 0 <= i < at ==> text[i] != '=',
    ensures
        word_position(text, "="@, from) == Some(at),
    decreases at - from,
{
    reveal_strlit("=");
    let sign = "="@;
    assert(text.subrange(from, from + 1)[0] == text[from]);
    if from < at {
        assert(sign[0] == '=');
        sign_is_found(text, at, from + 1);
    } else {
        assert(text.subrange(from, from + 1) =~= sign);
    }
}

/// The line that sets a variable.
pub open spec fn setting(name: Seq<char>, text: Seq<char>) -> Seq<char> {
    name.push('=') + text
}

proof fn setting_is_split(name: Seq<char>, text: Seq<char>)
    requires
        variable_name(name),
        text.len() > 0 ==> text.last() != ' ' && text.last() != '\t',
    ensures
        line_reading(setting(name, text)) == (match value_reading(text) {
            Ok(value) => if value.contains('\0') {
                Err("value must not contain a NUL character"@)
            } else {
                Ok(Some((name, value)))
            },
            Err(fault) => Err(fault),
        }),
{
    let line = setting(name, text);
    assert(name_character(name[0]));
    assert(line[0] == name[0]);
    assert(line.last() == if text.len() > 0 {
        text.last()
    } else {
        '='
    });
    unpadded_stays(line);
    reveal_strlit("export");
    if begins(line, "export"@) {
        let rest = line.skip(6);
        if name.len() > 6 {
            assert(name_character(name[6]));
            assert(rest[0] == name[6]);
        } else if name.len() == 6 {
            assert(rest[0] == '=');
        } else {
            assert(line[name.len() as int] == '=');
            assert(line.subrange(0, 6)[name.len() as int] == '=');
            assert("export"@[name.len() as int] != '=');
        }
    }
    assert(without_export(line) == line);
    assert forall|i: int| 0 <= i < name.len() implies line[i] != '=' by {
        assert(name_character(name[i]));
    }
    sign_is_found(line, name.len() as int, 0);
    assert(line.take(name.len() as int) =~= name);
    assert(line.skip(name.len() as int + 1) =~= text);
    assert(name_character(name.last()));
    unpadded_stays(name);
    names_are_accepted(name);
}

/// Everything behind the first equals sign is the value: a text without quotes,
/// and without a blank at either end, is read as it stands.
pub proof fn plain_values_are_read_whole(name: Seq<char>, value: Seq<char>)
    requires
        variable_name(name),
        unpadded(value),
        !value.contains('\''),
        !value.contains('"'),
        !value.contains('\0'),
    ensures
        line_reading(setting(name, value)) == Ok::<Option<(Seq<char>, Seq<char>)>, Seq<char>>(
            Some((name, value)),
        ),
{
    setting_is_split(name, value);
    unpadded_stays(value);
    if value.len() > 0 {
        assert(value[0] != '\'' && value[0] != '"') by {
            assert(value.contains(value[0]));
        }
    } else {
        assert(value =~= Seq::<char>::empty());
    }
}

/// Blanks around the name and around an unquoted value do not count.
pub proof fn blanks_around_a_value_do_not_count(name: Seq<char>, value: Seq<char>, blanks: Seq<char>)
    requires
        variable_name(name),
        unpadded(value),
        value.len() > 0,
        !value.contains('\''),
        !value.contains('"'),
        !value.contains('\0'),
        forall|i: int| 0 <= i < blanks.len() ==> blanks[i] == ' ' || blanks[i] == '\t',
    ensures
        line_reading(setting(name, blanks + value)) == Ok::<
            Option<(Seq<char>, Seq<char>)>,
            Seq<char>,
        >(Some((name, value))),
{
    let text = blanks + value;
    assert(text.last() == value.last());
    setting_is_split(name, text);
    leading_blanks_go(blanks, value, 0);
    assert(text.skip(blanks.len() as int) =~= value);
    unpadded_stays(value);
    assert(value.skip(0) =~= value);
    assert(value[0] != '\'' && value[0] != '"') by {
        assert(value.contains(value[0]));
    }
}

proof fn leading_blanks_go(blanks: Seq<char>, value: Seq<char>, from: int)
    requires
        0 <= from <= blanks.len(),
        value.len() > 0,
        value[0] != ' ' && value[0] != '\t',
        forall|i: int| 0 <= i < blanks.len() ==> blanks[i] == ' ' || blanks[i] == '\t',
    ensures
        first_kept(blanks + value, Blank::Horizontal, from) == blanks.len(),
    decreases blanks.len() - from,
{
    if from < blanks.len() {
        assert((blanks + value)[from] == blanks[from]);
        leading_blanks_go(blanks, value, from + 1);
    } else {
        assert((blanks + value)[from] == value[0]);
    }
}

proof fn quoted_is_read(raw: Seq<char>, value: Seq<char>, at: int)
    requires
        1 <= at <= value.len() + 1,
        raw == seq!['\''] + value + seq!['\''],
        !value.contains('\''),
    ensures
        quoted_from(raw, '\'', at, value.take(at - 1)) == Ok::<Seq<char>, Seq<char>>(value),
    decreases value.len() + 1 - at,
{
    if at == value.len() + 1 {
        assert(raw[at] == '\'');
        assert(raw.skip(at + 1) =~= Seq::<char>::empty());
        unpadded_stays(raw.skip(at + 1));
        assert(value.take(at - 1) =~= value);
    } else {
        assert(raw[at] == value[at - 1]);
        assert(value.contains(value[at - 1]));
        assert(value.take(at - 1).push(raw[at]) =~= value.take(at));
        quoted_is_read(raw, value, at + 1);
    }
}

/// A value in single quotes is read as it stands between them.
pub proof fn single_quotes_keep_everything(name: Seq<char>, value: Seq<char>)
    requires
        variable_name(name),
        !value.contains('\''),
        !value.contains('\0'),
    ensures
        line_reading(setting(name, seq!['\''] + value + seq!['\''])) == Ok::<
            Option<(Seq<char>, Seq<char>)>,
            Seq<char>,
        >(Some((name, value))),
{
    let raw = seq!['\''] + value + seq!['\''];
    assert(raw.last() == '\'');
    assert(raw[0] == '\'');
    setting_is_split(name, raw);
    unpadded_stays(raw);
    quoted_is_read(raw, value, 1);
    assert(value.take(0) =~= Seq::<char>::empty());
}

/// A character as it is written between double quotes.
pub open spec fn written(character: char) -> Seq<char> {
    if character == '\n' {
        seq!['\\', 'n']
    } else if character == '\r' {
        seq!['\\', 'r']
    } else if character == '\t' {
        seq!['\\', 't']
    } else if character == '\\' {
        seq!['\\', '\\']
    } else if character == '"' {
        seq!['\\', '"']
    } else {
        seq![character]
    }
}

/// A text as it is written between double quotes.
pub open spec fn written_text(value: Seq<char>) -> Seq<char>
    decreases value.len(),
{
    if value.len() == 0 {
        Seq::empty()
    } else {
        written(value[0]) + written_text(value.skip(1))
    }
}

proof fn escapes_are_read(raw: Seq<char>, at: int, read: Seq<char>, value: Seq<char>)
    requires
        1 <= at,
        raw.skip(at) == written_text(value) + seq!['"'],
        at <= raw.len(),
    ensures
        quoted_from(raw, '"', at, read) == Ok::<Seq<char>, Seq<char>>(read + value),
    decreases value.len(),
{
    let rest = raw.skip(at);
    if value.len() == 0 {
        assert(rest[0] == '"');
        assert(raw[at] == '"');
        assert(rest.len() == 1);
        assert(raw.skip(at + 1) =~= Seq::<char>::empty());
        unpadded_stays(raw.skip(at + 1));
        assert(read + value =~= read);
    } else {
        let first = written(value[0]);
        let size = first.len() as int;
        assert(rest =~= first + (written_text(value.skip(1)) + seq!['"']));
        assert(rest[0] == first[0] && raw[at] == rest[0]);
        assert(raw.skip(at + size) =~= rest.skip(size));
        assert(rest.skip(size) =~= written_text(value.skip(1)) + seq!['"']);
        if size == 2 {
            assert(raw[at + 1] == rest[1] && rest[1] == first[1]);
            assert(escaped(raw[at + 1]) == Some(value[0]));
        }
        escapes_are_read(raw, at + size, read.push(value[0]), value.skip(1));
        assert(read.push(value[0]) + value.skip(1) =~= read + value);
    }
}

/// Every text can be given between double quotes, with its line ends, tabs,
/// quotes and backslashes escaped, and is read back.
pub proof fn double_quotes_are_read_back(name: Seq<char>, value: Seq<char>)
    requires
        variable_name(name),
        !value.contains('\0'),
    ensures
        line_reading(setting(name, seq!['"'] + written_text(value) + seq!['"'])) == Ok::<
            Option<(Seq<char>, Seq<char>)>,
            Seq<char>,
        >(Some((name, value))),
{
    let raw = seq!['"'] + written_text(value) + seq!['"'];
    assert(raw.last() == '"');
    assert(raw[0] == '"');
    setting_is_split(name, raw);
    unpadded_stays(raw);
    assert(raw.skip(1) =~= written_text(value) + seq!['"']);
    escapes_are_read(raw, 1, Seq::empty(), value);
    assert(Seq::<char>::empty() + value =~= value);
}

/// The word `export` in front of a line changes nothing.
pub proof fn export_changes_nothing(name: Seq<char>, text: Seq<char>)
    requires
        variable_name(name),
        text.len() > 0 ==> text.last() != ' ' && text.last() != '\t',
    ensures
        line_reading("export "@ + setting(name, text)) == line_reading(setting(name, text)),
{
    let line = setting(name, text);
    let whole = "export "@ + line;
    reveal_strlit("export ");
    reveal_strlit("export");
    setting_is_split(name, text);
    assert(name_character(name[0]));
    assert(line[0] == name[0]);
    assert(line.last() == if text.len() > 0 {
        text.last()
    } else {
        '='
    });
    assert(whole.last() == line.last());
    assert(whole[0] == 'e');
    unpadded_stays(whole);
    unpadded_stays(line);
    assert(whole.subrange(0, 6) =~= "export"@);
    let rest = whole.skip(6);
    assert(rest[0] == ' ');
    assert(rest =~= seq![' '] + line);
    leading_blanks_go(seq![' '], line, 0);
    assert(rest.skip(1) =~= line);
    assert(without_export(whole) == line);
    if begins(line, "export"@) {
        let more = line.skip(6);
        if name.len() > 6 {
            assert(name_character(name[6]));
            assert(more[0] == name[6]);
        } else if name.len() == 6 {
            assert(more[0] == '=');
        } else {
            assert(line.subrange(0, 6)[name.len() as int] == '=');
            assert("export"@[name.len() as int] != '=');
        }
    }
    assert(without_export(line) == line);
}

/// An empty line and a comment set nothing.
pub proof fn comments_set_nothing(blanks: Seq<char>, text: Seq<char>)
    requires
        forall|i: int| 0 <= i < blanks.len() ==> blanks[i] == ' ' || blanks[i] == '\t',
    ensures
        line_reading(blanks + seq!['#'] + text) == Ok::<
            Option<(Seq<char>, Seq<char>)>,
            Seq<char>,
        >(None),
        line_reading(Seq::empty()) == Ok::<Option<(Seq<char>, Seq<char>)>, Seq<char>>(None),
{
    let comment = seq!['#'] + text;
    assert(blanks + seq!['#'] + text =~= blanks + comment);
    leading_blanks_go(blanks, comment, 0);
    let rest = (blanks + comment).skip(blanks.len() as int);
    assert(rest =~= comment);
    some_end_is_kept(comment, comment.len() as int);
    unpadded_stays(Seq::empty());
}

proof fn some_end_is_kept(text: Seq<char>, end: int)
    requires
        text.len() > 0,
        text[0] == '#',
        1 <= end <= text.len(),
    ensures
        1 <= last_kept(text, Blank::Horizontal, end) <= end,
    decreases end,
{
    if end > 1 {
        some_end_is_kept(text, end - 1);
    }
}

/// A line that sets a variable sets one with a valid name, to a value without
/// a NUL character.
pub proof fn set_variables_are_valid(line: Seq<char>)
    ensures
        line_reading(line) matches Ok(Some((name, value))) ==> variable_name(name)
            && !value.contains('\0'),
{
    if let Ok(Some((name, _))) = line_reading(line) {
        names_are_accepted(name);
    }
}

proof fn line_is_collected(line: Seq<char>, rest: Seq<char>, at: int)
    requires
        0 <= at <= line.len(),
        !line.contains('\n'),
    ensures
        lines_in((line + rest).skip(at), line.take(at)) == lines_in(rest, line),
    decreases line.len() - at,
{
    let text = (line + rest).skip(at);
    if at == line.len() {
        assert(text =~= rest);
        assert(line.take(at) =~= line);
    } else {
        assert(text[0] == line[at]);
        assert(line.contains(line[at]));
        assert(text.skip(1) =~= (line + rest).skip(at + 1));
        assert(line.take(at).push(line[at]) =~= line.take(at + 1));
        line_is_collected(line, rest, at + 1);
    }
}

/// A text is read line by line: what stands before a line end is a line of its
/// own, whether or not a carriage return precedes the line end, and the last
/// line needs no end.
pub proof fn lines_are_split_at_line_ends(line: Seq<char>, rest: Seq<char>)
    requires
        !line.contains('\n'),
        line.len() > 0 ==> line.last() != '\r',
    ensures
        lines_of(line + seq!['\n'] + rest) == seq![line] + lines_of(rest),
        lines_of(line + seq!['\r', '\n'] + rest) == seq![line] + lines_of(rest),
        line.len() > 0 ==> lines_of(line) == seq![line],
{
    let after = seq!['\n'] + rest;
    assert(line + seq!['\n'] + rest =~= line + after);
    line_is_collected(line, after, 0);
    assert((line + after).skip(0) =~= line + after);
    assert(line.take(0) =~= Seq::<char>::empty());
    assert(after.skip(1) =~= rest);
    let returned = line.push('\r');
    assert(line + seq!['\r', '\n'] + rest =~= returned + after);
    assert(!returned.contains('\n')) by {
        assert forall|i: int| 0 <= i < returned.len() implies returned[i] != '\n' by {
            if i < line.len() {
                assert(line.contains(line[i]));
            }
        }
    }
    line_is_collected(returned, after, 0);
    assert((returned + after).skip(0) =~= returned + after);
    assert(returned.take(0) =~= Seq::<char>::empty());
    assert(returned.drop_last() =~= line);
    line_is_collected(line, Seq::empty(), 0);
    assert((line + Seq::<char>::empty()).skip(0) =~= line);
}

/// A variable that no line from `from` on sets keeps its value.
pub proof fn unset_variables_outlast_a_file(
    lines: Seq<Seq<char>>,
    from: int,
    path: Seq<char>,
    owner: Seq<char>,
    entries: Entries,
    name: Seq<char>,
)
    requires
        0 <= from <= lines.len(),
        ordered(keys_of(entries)),
        forall|i: int|
            from <= i < lines.len() ==> !(line_reading(#[trigger] lines[i]) matches Ok(Some(pair))
                && pair.0 == name),
    ensures
        lines_reading(lines, from, path, owner, entries) matches Ok(values) ==> entry_of(
            values,
            name,
        ) == entry_of(entries, name),
    decreases lines.len() - from,
{
    if from < lines.len() {
        match line_reading(lines[from]) {
            Err(_) => {},
            Ok(None) => {
                unset_variables_outlast_a_file(lines, from + 1, path, owner, entries, name);
            },
            Ok(Some((key, value))) => {
                last_value_wins(entries, key, value);
                other_values_stay(entries, key, value, name);
                unset_variables_outlast_a_file(
                    lines,
                    from + 1,
                    path,
                    owner,
                    placed(entries, key, value),
                    name,
                );
            },
        }
    }
}

/// The last line of a file that sets a variable gives its value, over earlier
/// lines and over what was known before the file.
pub proof fn last_line_of_a_file_wins(
    lines: Seq<Seq<char>>,
    from: int,
    path: Seq<char>,
    owner: Seq<char>,
    entries: Entries,
    at: int,
    name: Seq<char>,
    value: Seq<char>,
)
    requires
        0 <= from <= at < lines.len(),
        ordered(keys_of(entries)),
        line_reading(lines[at]) == Ok::<Option<(Seq<char>, Seq<char>)>, Seq<char>>(
            Some((name, value)),
        ),
        forall|i: int|
            at < i < lines.len() ==> !(line_reading(#[trigger] lines[i]) matches Ok(Some(pair))
                && pair.0 == name),
    ensures
        lines_reading(lines, from, path, owner, entries) matches Ok(values) ==> entry_of(
            values,
            name,
        ) == Some(value),
    decreases at - from,
{
    if from < at {
        match line_reading(lines[from]) {
            Err(_) => {},
            Ok(None) => {
                last_line_of_a_file_wins(
                    lines,
                    from + 1,
                    path,
                    owner,
                    entries,
                    at,
                    name,
                    value,
                );
            },
            Ok(Some((key, other))) => {
                last_value_wins(entries, key, other);
                last_line_of_a_file_wins(
                    lines,
                    from + 1,
                    path,
                    owner,
                    placed(entries, key, other),
                    at,
                    name,
                    value,
                );
            },
        }
    } else {
        last_value_wins(entries, name, value);
        unset_variables_outlast_a_file(
            lines,
            from + 1,
            path,
            owner,
            placed(entries, name, value),
            name,
        );
    }
}

/// A file is accepted exactly where each of its lines is.
pub proof fn every_line_counts(
    lines: Seq<Seq<char>>,
    from: int,
    path: Seq<char>,
    owner: Seq<char>,
    entries: Entries,
)
    requires
        0 <= from <= lines.len(),
    ensures
        lines_reading(lines, from, path, owner, entries) is Ok <==> forall|i: int|
            from <= i < lines.len() ==> line_reading(#[trigger] lines[i]) is Ok,
    decreases lines.len() - from,
{
    if from < lines.len() {
        match line_reading(lines[from]) {
            Err(_) => {},
            Ok(None) => every_line_counts(lines, from + 1, path, owner, entries),
            Ok(Some((key, value))) => every_line_counts(
                lines,
                from + 1,
                path,
                owner,
                placed(entries, key, value),
            ),
        }
    }
}

} // verus!
