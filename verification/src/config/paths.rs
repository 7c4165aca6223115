//! Paths of the configuration, as text with `/` between the names.

use vstd::prelude::*;

use crate::scan::{contains, starts_with};
use crate::text::{characters, concat2, concat3, join, push_char, same_text};

#[allow(unused_imports)]
use crate::scan::holds;
#[allow(unused_imports)]
use crate::text::{joined, texts};

verus! {

/// What came of reading a file.
#[derive(Clone, Debug, PartialEq, Eq)]
pub enum FileContent {
    Bytes(Vec<u8>),
    /// The file could not be read, and why.
    Unreadable(String),
}

/// What is known of the file system.
#[derive(Clone, Debug, PartialEq, Eq)]
pub struct FileFacts {
    /// The paths of files.
    pub files: Vec<String>,
    /// The paths of directories.
    pub directories: Vec<String>,
    /// What came of reading files.
    pub contents: Vec<(String, FileContent)>,
}

/// What came of reading a file, as mathematical values.
pub enum ContentView {
    Bytes(Seq<u8>),
    Unreadable(Seq<char>),
}

impl View for FileContent {
    type V = ContentView;

    open spec fn view(&self) -> ContentView {
        match *self {
            FileContent::Bytes(bytes) => ContentView::Bytes(bytes@),
            FileContent::Unreadable(detail) => ContentView::Unreadable(detail@),
        }
    }
}

/// The content that is known of a path, from entry `from` on.
pub open spec fn content_from(
    contents: Seq<(String, FileContent)>,
    path: Seq<char>,
    from: int,
) -> ContentView
    decreases contents.len() - from,
{
    if from < 0 || from >= contents.len() {
        ContentView::Unreadable("it was not read"@)
    } else if contents[from].0@ == path {
        contents[from].1@
    } else {
        content_from(contents, path, from + 1)
    }
}

impl FileFacts {
    /// Whether a path is known as a file.
    pub open spec fn known_file(&self, path: Seq<char>) -> bool {
        texts(self.files@).contains(path)
    }

    /// Whether a path is known as a directory.
    pub open spec fn known_directory(&self, path: Seq<char>) -> bool {
        texts(self.directories@).contains(path)
    }

    /// What came of reading a path.
    pub open spec fn content_of(&self, path: Seq<char>) -> ContentView {
        content_from(self.contents@, path, 0)
    }

    /// Whether a path names a file.
    pub fn is_file(&self, path: &str) -> (r: bool)
        ensures
            r == self.known_file(path@),
    {
        has_text(&self.files, path)
    }

    /// Whether a path names a directory.
    pub fn is_dir(&self, path: &str) -> (r: bool)
        ensures
            r == self.known_directory(path@),
    {
        has_text(&self.directories, path)
    }

    /// What came of reading a path.
    pub fn content(&self, path: &str) -> (r: FileContent)
        ensures
            r@ == self.content_of(path@),
    {
        let mut index: usize = 0;
        while index < self.contents.len()
            invariant
                index <= self.contents.len(),
                content_from(self.contents@, path@, 0) == content_from(
                    self.contents@,
                    path@,
                    index as int,
                ),
            decreases self.contents.len() - index,
        {
            if same_text(self.contents[index].0.as_str(), path) {
                return match &self.contents[index].1 {
                    FileContent::Bytes(bytes) => FileContent::Bytes(copy_bytes(bytes)),
                    FileContent::Unreadable(detail) => FileContent::Unreadable(detail.clone()),
                };
            }
            index = index + 1;
        }
        FileContent::Unreadable("it was not read".to_owned())
    }
}

fn copy_bytes(bytes: &Vec<u8>) -> (r: Vec<u8>)
    ensures
        r@ == bytes@,
{
    let mut copy: Vec<u8> = Vec::new();
    let mut index: usize = 0;
    while index < bytes.len()
        invariant
            index <= bytes.len(),
            copy@ == bytes@.take(index as int),
        decreases bytes.len() - index,
    {
        copy.push(bytes[index]);
        index = index + 1;
        proof {
            assert(bytes@.take(index as int) =~= bytes@.take(index - 1).push(bytes@[index - 1]));
        }
    }
    proof {
        assert(bytes@.take(index as int) =~= bytes@);
    }
    copy
}

/// Whether a text is among others.
pub fn has_text(values: &Vec<String>, text: &str) -> (r: bool)
    ensures
        r == texts(values@).contains(text@),
{
    let mut index: usize = 0;
    while index < values.len()
        invariant
            index <= values.len(),
            forall|i: int| 0 <= i < index ==> (#[trigger] values@[i])@ != text@,
        decreases values.len() - index,
    {
        if same_text(values[index].as_str(), text) {
            proof {
                assert(texts(values@)[index as int] == text@);
            }
            return true;
        }
        index = index + 1;
    }
    proof {
        assert forall|i: int| 0 <= i < texts(values@).len() implies texts(values@)[i] != text@ by {
            assert(values@[i]@ != text@);
        }
    }
    false
}

/// The names in a text, where `current` stands before it.
pub open spec fn names_in(text: Seq<char>, current: Seq<char>) -> Seq<Seq<char>>
    decreases text.len(),
{
    if text.len() == 0 {
        if current.len() == 0 {
            Seq::empty()
        } else {
            seq![current]
        }
    } else if text[0] == '/' {
        if current.len() == 0 {
            names_in(text.skip(1), Seq::empty())
        } else {
            seq![current] + names_in(text.skip(1), Seq::empty())
        }
    } else {
        names_in(text.skip(1), current.push(text[0]))
    }
}

/// The names of a path, in order.
pub open spec fn path_names(path: Seq<char>) -> Seq<Seq<char>> {
    names_in(path, Seq::empty())
}

/// Whether a path starts at the root.
pub open spec fn is_absolute(path: Seq<char>) -> bool {
    path.len() > 0 && path[0] == '/'
}

/// Names without `.`, and with each `..` taken back with the name before it.
pub open spec fn plain_names(names: Seq<Seq<char>>) -> Seq<Seq<char>>
    decreases names.len(),
{
    if names.len() == 0 {
        Seq::empty()
    } else {
        let before = plain_names(names.drop_last());
        if names.last() == "."@ {
            before
        } else if names.last() == ".."@ {
            if before.len() == 0 {
                before
            } else {
                before.drop_last()
            }
        } else {
            before.push(names.last())
        }
    }
}

/// The path with the given names.
pub open spec fn path_of(absolute: bool, names: Seq<Seq<char>>) -> Seq<char> {
    if absolute {
        "/"@ + joined(names, "/"@)
    } else {
        joined(names, "/"@)
    }
}

/// A path in its lexical form.
pub open spec fn normalized(path: Seq<char>) -> Seq<char> {
    path_of(is_absolute(path), plain_names(path_names(path)))
}

/// A path taken from a directory.
pub open spec fn joined_path(base: Seq<char>, path: Seq<char>) -> Seq<char> {
    if is_absolute(path) || base.len() == 0 {
        path
    } else if base.last() == '/' {
        base + path
    } else {
        base + "/"@ + path
    }
}

/// A configured path from the base Project directory.
pub open spec fn resolved(base: Seq<char>, path: Seq<char>) -> Seq<char> {
    normalized(joined_path(base, path))
}

/// The directory of a normalized path; the root has none.
pub open spec fn parent_of(path: Seq<char>) -> Option<Seq<char>> {
    let names = path_names(path);
    if names.len() == 0 {
        None
    } else {
        Some(path_of(is_absolute(path), names.drop_last()))
    }
}

/// The names of a path, in order.
pub fn components(path: &str) -> (r: Vec<String>)
    ensures
        texts(r@) == path_names(path@),
{
    let letters = characters(path);
    let mut names: Vec<String> = Vec::new();
    let mut current = "".to_owned();
    let mut index: usize = 0;
    proof {
        reveal_strlit("");
        assert(current@ =~= Seq::<char>::empty());
        assert(texts(names@) =~= Seq::<Seq<char>>::empty());
        assert(path@.skip(0) =~= path@);
        assert(texts(names@) + names_in(path@, Seq::empty()) =~= path_names(path@));
    }
    while index < letters.len()
        invariant
            letters@ == path@,
            index <= letters.len(),
            texts(names@) + names_in(path@.skip(index as int), current@) == path_names(path@),
        decreases letters.len() - index,
    {
        let letter = letters[index];
        let ghost rest = path@.skip(index as int);
        let ghost before = texts(names@);
        proof {
            assert(rest[0] == letter);
            assert(rest.skip(1) =~= path@.skip(index + 1));
        }
        if letter == '/' {
            if current.as_str().unicode_len() > 0 {
                let ghost finished = current@;
                names.push(current);
                current = "".to_owned();
                proof {
                    reveal_strlit("");
                    assert(current@ =~= Seq::<char>::empty());
                    assert(texts(names@) =~= before.push(finished));
                    assert(before + (seq![finished] + names_in(rest.skip(1), Seq::empty()))
                        =~= texts(names@) + names_in(rest.skip(1), Seq::empty()));
                }
            } else {
                proof {
                    assert(current@ =~= Seq::<char>::empty());
                }
            }
        } else {
            push_char(&mut current, letter);
        }
        index = index + 1;
    }
    proof {
        assert(path@.skip(index as int) =~= Seq::<char>::empty());
    }
    if current.as_str().unicode_len() > 0 {
        let ghost before = texts(names@);
        let ghost finished = current@;
        names.push(current);
        proof {
            assert(texts(names@) =~= before.push(finished));
            assert(texts(names@) =~= before + seq![finished]);
        }
    } else {
        proof {
            assert(texts(names@) + Seq::<Seq<char>>::empty() =~= texts(names@));
        }
    }
    names
}

pub(crate) fn absolute(path: &str) -> (r: bool)
    ensures
        r == is_absolute(path@),
{
    proof {
        reveal_strlit("/");
        if path@.len() > 0 {
            assert(path@.subrange(0, 1) =~= "/"@ <==> path@[0] == '/') by {
                if path@[0] == '/' {
                    assert(path@.subrange(0, 1) =~= "/"@);
                } else {
                    assert(path@.subrange(0, 1)[0] != "/"@[0]);
                }
            }
        }
    }
    starts_with(path, "/")
}

pub(crate) fn assemble(absolute: bool, names: &Vec<String>) -> (r: String)
    ensures
        r@ == path_of(absolute, texts(names@)),
{
    let rest = join(names, "/");
    if absolute {
        concat2("/", rest.as_str())
    } else {
        rest
    }
}

/// A path in its lexical form.
pub fn normalize(path: &str) -> (r: String)
    ensures
        r@ == normalized(path@),
{
    let names = components(path);
    let mut kept: Vec<String> = Vec::new();
    let mut index: usize = 0;
    proof {
        assert(texts(names@).take(0) =~= Seq::<Seq<char>>::empty());
        assert(texts(kept@) =~= Seq::<Seq<char>>::empty());
    }
    while index < names.len()
        invariant
            index <= names.len(),
            texts(kept@) == plain_names(texts(names@).take(index as int)),
        decreases names.len() - index,
    {
        let ghost before = texts(kept@);
        proof {
            assert(texts(names@).take(index + 1).drop_last() =~= texts(names@).take(index as int));
            assert(texts(names@).take(index + 1).last() == names@[index as int]@);
        }
        if same_text(names[index].as_str(), ".") {
        } else if same_text(names[index].as_str(), "..") {
            proof {
                reveal_strlit(".");
                reveal_strlit("..");
                assert("."@.len() != ".."@.len());
            }
            if kept.len() > 0 {
                kept.pop();
                proof {
                    assert(texts(kept@) =~= before.drop_last());
                }
            }
        } else {
            kept.push(names[index].clone());
            proof {
                assert(texts(kept@) =~= before.push(names@[index as int]@));
            }
        }
        index = index + 1;
    }
    proof {
        assert(texts(names@).take(index as int) =~= texts(names@));
    }
    assemble(absolute(path), &kept)
}

/// A path taken from a directory.
pub fn join_path(base: &str, path: &str) -> (r: String)
    ensures
        r@ == joined_path(base@, path@),
{
    let count: usize = base.unicode_len();
    if absolute(path) || count == 0 {
        path.to_owned()
    } else if base.get_char(count - 1) == '/' {
        concat2(base, path)
    } else {
        concat3(base, "/", path)
    }
}

/// Turn a caller-supplied path into an absolute, lexical path.
pub fn absolute_normalized(current_dir: &str, path: &str) -> (r: String)
    ensures
        r@ == resolved(current_dir@, path@),
{
    normalize(join_path(current_dir, path).as_str())
}

/// Resolve a configuration path from the base Project directory.
pub fn resolve(base_dir: &str, configured: &str) -> (r: String)
    ensures
        r@ == resolved(base_dir@, configured@),
{
    normalize(join_path(base_dir, configured).as_str())
}

/// The directory of a normalized path; the root has none.
pub fn parent(path: &str) -> (r: Option<String>)
    ensures
        crate::scan::option_view(r) == parent_of(path@),
{
    let mut names = components(path);
    let ghost before = texts(names@);
    if names.len() == 0 {
        return None;
    }
    names.pop();
    proof {
        assert(texts(names@) =~= before.drop_last());
    }
    Some(assemble(absolute(path), &names))
}

/// A configured directory, or why it is none.
pub open spec fn directory_reading(
    base: Seq<char>,
    configured: Seq<char>,
    context: Seq<char>,
    facts: FileFacts,
) -> Result<Seq<char>, Seq<char>> {
    let path = resolved(base, configured);
    if facts.known_directory(path) {
        Ok(path)
    } else {
        Err(
            context + " '"@ + configured + "' resolves to '"@ + path
                + "' but does not exist or is not a directory"@,
        )
    }
}

/// Resolve and validate a directory supplied by configuration.
pub fn resolve_directory(base_dir: &str, configured: &str, context: &str, facts: &FileFacts) -> (r:
    Result<String, String>)
    ensures
        text_result(r) == directory_reading(base_dir@, configured@, context@, *facts),
{
    let path = resolve(base_dir, configured);
    if facts.is_dir(path.as_str()) {
        Ok(path)
    } else {
        Err(
            crate::text::concat6(
                context,
                " '",
                configured,
                "' resolves to '",
                path.as_str(),
                "' but does not exist or is not a directory",
            ),
        )
    }
}

/// A text or a failure as mathematical values.
pub open spec fn text_result(result: Result<String, String>) -> Result<Seq<char>, Seq<char>> {
    match result {
        Ok(text) => Ok(text@),
        Err(detail) => Err(detail@),
    }
}

/// A configured program, or why it is none. Bare names stay untouched.
pub open spec fn program_reading(
    program: Seq<char>,
    base: Seq<char>,
    context: Seq<char>,
    facts: FileFacts,
) -> Result<Seq<char>, Seq<char>> {
    let path = resolved(base, program);
    if !holds(program, "/"@) {
        Ok(program)
    } else if facts.known_file(path) {
        Ok(path)
    } else {
        Err(
            context + " program '"@ + program
                + "' does not identify a file after resolving to '"@ + path
                + "' from the base Project directory"@,
        )
    }
}

/// Resolve and validate a direct program when it contains a path separator.
/// Bare names stay untouched so the process launcher can search `PATH`.
pub fn resolve_program(program: &str, base_dir: &str, context: &str, facts: &FileFacts) -> (r:
    Result<String, String>)
    ensures
        text_result(r) == program_reading(program@, base_dir@, context@, *facts),
{
    if !contains(program, "/") {
        return Ok(program.to_owned());
    }
    let path = resolve(base_dir, program);
    if facts.is_file(path.as_str()) {
        return Ok(path);
    }
    Err(
        crate::text::concat6(
            context,
            " program '",
            program,
            "' does not identify a file after resolving to '",
            path.as_str(),
            "' from the base Project directory",
        ),
    )
}

/// Whether a text is a name: something without a separator.
pub open spec fn is_name(name: Seq<char>) -> bool {
    name.len() > 0 && !name.contains('/')
}

/// Whether a name stands for itself.
pub open spec fn is_plain_name(name: Seq<char>) -> bool {
    is_name(name) && name != "."@ && name != ".."@
}

proof fn found_names(text: Seq<char>, current: Seq<char>)
    requires
        !current.contains('/'),
    ensures
        forall|i: int| 0 <= i < names_in(text, current).len() ==> is_name(
            #[trigger] names_in(text, current)[i],
        ),
    decreases text.len(),
{
    let found = names_in(text, current);
    if text.len() == 0 {
        assert forall|i: int| 0 <= i < found.len() implies is_name(#[trigger] found[i]) by {
            assert(found[i] == current);
        }
    } else if text[0] == '/' {
        let rest = names_in(text.skip(1), Seq::empty());
        found_names(text.skip(1), Seq::empty());
        assert forall|i: int| 0 <= i < found.len() implies is_name(#[trigger] found[i]) by {
            if current.len() == 0 {
                assert(is_name(rest[i]));
            } else if i > 0 {
                assert(is_name(rest[i - 1]));
            }
        }
    } else {
        let longer = current.push(text[0]);
        assert forall|i: int| 0 <= i < longer.len() implies longer[i] != '/' by {
            if i < current.len() {
                assert(current.contains(current[i]));
            }
        }
        found_names(text.skip(1), longer);
        assert(found == names_in(text.skip(1), longer));
        assert forall|i: int| 0 <= i < found.len() implies is_name(#[trigger] found[i]) by {
            assert(is_name(names_in(text.skip(1), longer)[i]));
        }
    }
}

proof fn kept_names(names: Seq<Seq<char>>)
    requires
        forall|i: int| 0 <= i < names.len() ==> is_name(#[trigger] names[i]),
    ensures
        forall|i: int| 0 <= i < plain_names(names).len() ==> is_plain_name(
            #[trigger] plain_names(names)[i],
        ),
    decreases names.len(),
{
    if names.len() > 0 {
        let fewer = names.drop_last();
        assert forall|i: int| 0 <= i < fewer.len() implies is_name(#[trigger] fewer[i]) by {
            assert(is_name(names[i]));
        }
        kept_names(fewer);
        assert(is_name(names[names.len() - 1]));
        let before = plain_names(fewer);
        let after = plain_names(names);
        assert forall|i: int| 0 <= i < after.len() implies is_plain_name(#[trigger] after[i]) by {
            if i < before.len() {
                assert(is_plain_name(before[i]));
            }
        }
    }
}

proof fn plain_names_stay(names: Seq<Seq<char>>)
    requires
        forall|i: int| 0 <= i < names.len() ==> is_plain_name(#[trigger] names[i]),
    ensures
        plain_names(names) == names,
    decreases names.len(),
{
    if names.len() > 0 {
        let fewer = names.drop_last();
        assert forall|i: int| 0 <= i < fewer.len() implies is_plain_name(#[trigger] fewer[i]) by {
            assert(is_plain_name(names[i]));
        }
        plain_names_stay(fewer);
        assert(is_plain_name(names[names.len() - 1]));
        assert(fewer.push(names.last()) =~= names);
    } else {
        assert(plain_names(names) =~= names);
    }
}

proof fn one_name(name: Seq<char>, current: Seq<char>)
    requires
        !name.contains('/'),
        current.len() + name.len() > 0,
    ensures
        names_in(name, current) == seq![current + name],
    decreases name.len(),
{
    if name.len() == 0 {
        assert(current + name =~= current);
    } else {
        assert(name.contains(name[0]));
        let rest = name.skip(1);
        assert forall|i: int| 0 <= i < rest.len() implies rest[i] != '/' by {
            assert(name.contains(name[i + 1]));
        }
        one_name(rest, current.push(name[0]));
        assert(current.push(name[0]) + rest =~= current + name);
    }
}

proof fn names_around_separator(before: Seq<char>, after: Seq<char>, current: Seq<char>)
    ensures
        names_in(before + seq!['/'] + after, current) == names_in(before, current) + names_in(
            after,
            Seq::empty(),
        ),
    decreases before.len(),
{
    let text = before + seq!['/'] + after;
    if before.len() == 0 {
        assert(text[0] == '/');
        assert(text.skip(1) =~= after);
        if current.len() == 0 {
            assert(names_in(before, current) + names_in(after, Seq::empty()) =~= names_in(
                after,
                Seq::empty(),
            ));
        }
    } else {
        let rest = before.skip(1);
        assert(text[0] == before[0]);
        assert(text.skip(1) =~= rest + seq!['/'] + after);
        if before[0] == '/' {
            names_around_separator(rest, after, Seq::empty());
            if current.len() > 0 {
                assert(seq![current] + (names_in(rest, Seq::empty()) + names_in(
                    after,
                    Seq::empty(),
                )) =~= (seq![current] + names_in(rest, Seq::empty())) + names_in(
                    after,
                    Seq::empty(),
                ));
            }
        } else {
            names_around_separator(rest, after, current.push(before[0]));
        }
    }
}

proof fn names_of_joined(names: Seq<Seq<char>>)
    requires
        forall|i: int| 0 <= i < names.len() ==> is_name(#[trigger] names[i]),
    ensures
        path_names(joined(names, "/"@)) == names,
        !is_absolute(joined(names, "/"@)),
        names.len() > 0 ==> joined(names, "/"@).len() > 0,
    decreases names.len(),
{
    reveal_strlit("/");
    assert("/"@ =~= seq!['/']);
    if names.len() == 0 {
        assert(path_names(joined(names, "/"@)) =~= names);
    } else if names.len() == 1 {
        one_name(names[0], Seq::empty());
        assert(Seq::<char>::empty() + names[0] =~= names[0]);
        assert(seq![names[0]] =~= names);
        assert(names[0].contains(names[0][0]));
    } else {
        let fewer = names.drop_last();
        assert forall|i: int| 0 <= i < fewer.len() implies is_name(#[trigger] fewer[i]) by {
            assert(is_name(names[i]));
        }
        names_of_joined(fewer);
        let front = joined(fewer, "/"@);
        let last = names.last();
        assert(is_name(names[names.len() - 1]));
        names_around_separator(front, last, Seq::empty());
        one_name(last, Seq::empty());
        assert(Seq::<char>::empty() + last =~= last);
        assert(fewer + seq![last] =~= names);
        assert(joined(names, "/"@)[0] == front[0]);
    }
}

/// A path in its lexical form holds neither `.` nor `..`, and taking the
/// lexical form again changes nothing.
pub proof fn lexical_form_is_stable(path: Seq<char>)
    ensures
        forall|i: int| 0 <= i < path_names(normalized(path)).len() ==> is_plain_name(
            #[trigger] path_names(normalized(path))[i],
        ),
        is_absolute(normalized(path)) == is_absolute(path),
        normalized(normalized(path)) == normalized(path),
{
    let names = plain_names(path_names(path));
    found_names(path, Seq::empty());
    kept_names(path_names(path));
    assert forall|i: int| 0 <= i < names.len() implies is_name(#[trigger] names[i]) by {
        assert(is_plain_name(names[i]));
    }
    names_of_joined(names);
    plain_names_stay(names);
    reveal_strlit("/");
    if is_absolute(path) {
        let rest = joined(names, "/"@);
        names_around_separator(Seq::empty(), rest, Seq::empty());
        assert(Seq::<char>::empty() + seq!['/'] + rest =~= "/"@ + rest);
        assert(names_in(Seq::empty(), Seq::empty()) + names =~= names);
    }
}

/// Relative paths are taken from the base Project directory; absolute ones
/// stand on their own.
pub proof fn absolute_paths_ignore_the_base(base: Seq<char>, other: Seq<char>, path: Seq<char>)
    requires
        is_absolute(path),
    ensures
        resolved(base, path) == resolved(other, path),
{
}

/// A relative path is found below its base: its names follow those of the base.
pub proof fn relative_paths_follow_the_base(base: Seq<Seq<char>>, path: Seq<Seq<char>>)
    requires
        path.len() > 0,
        forall|i: int| 0 <= i < base.len() ==> is_plain_name(#[trigger] base[i]),
        forall|i: int| 0 <= i < path.len() ==> is_plain_name(#[trigger] path[i]),
    ensures
        resolved(path_of(true, base), path_of(false, path)) == path_of(true, base + path),
        resolved(path_of(true, base), path_of(true, path)) == path_of(true, path),
{
    reveal_strlit("/");
    assert("/"@ =~= seq!['/']);
    let all = base + path;
    assert forall|i: int| 0 <= i < base.len() implies is_name(#[trigger] base[i]) by {
        assert(is_plain_name(base[i]));
    }
    assert forall|i: int| 0 <= i < path.len() implies is_name(#[trigger] path[i]) by {
        assert(is_plain_name(path[i]));
    }
    assert forall|i: int| 0 <= i < all.len() implies is_plain_name(#[trigger] all[i]) by {
        if i < base.len() {
            assert(all[i] == base[i]);
        } else {
            assert(all[i] == path[i - base.len()]);
        }
    }
    names_of_joined(base);
    names_of_joined(path);
    plain_names_stay(all);
    plain_names_stay(path);
    let below = joined(base, "/"@);
    let tail = joined(path, "/"@);
    let start = path_of(true, base);
    assert(start =~= seq!['/'] + below);
    let whole = joined_path(start, tail);
    assert(whole[0] == '/');
    names_around_separator(Seq::empty(), below, Seq::empty());
    assert(Seq::<char>::empty() + seq!['/'] + below =~= start);
    assert(names_in(Seq::empty(), Seq::empty()) =~= Seq::<Seq<char>>::empty());
    assert(path_names(start) =~= base);
    names_around_separator(start, tail, Seq::empty());
    if start.last() == '/' {
        assert(whole =~= start + tail);
        if base.len() > 0 {
            last_name_ends_a_path(base);
            assert(start.last() == below.last());
        } else {
            assert(below =~= Seq::<char>::empty());
            assert(start =~= seq!['/']);
            names_around_separator(Seq::empty(), tail, Seq::empty());
            assert(Seq::<char>::empty() + seq!['/'] + tail =~= whole);
            assert(path_names(whole) =~= path);
            assert(all =~= path);
        }
    } else {
        assert(whole =~= start + seq!['/'] + tail);
        assert(path_names(whole) =~= all);
    }
    assert(plain_names(path_names(whole)) == all);
    let rooted = path_of(true, path);
    assert(rooted =~= seq!['/'] + tail);
    names_around_separator(Seq::empty(), tail, Seq::empty());
    assert(Seq::<char>::empty() + seq!['/'] + tail =~= rooted);
    assert(path_names(rooted) =~= path);
}

proof fn last_name_ends_a_path(names: Seq<Seq<char>>)
    requires
        names.len() > 0,
        forall|i: int| 0 <= i < names.len() ==> is_name(#[trigger] names[i]),
    ensures
        joined(names, "/"@).len() > 0,
        joined(names, "/"@).last() != '/',
{
    let last = names[names.len() - 1];
    assert(is_name(last));
    assert(last.contains(last[last.len() - 1]));
    assert(joined(names, "/"@).last() == last.last());
}

/// A single dot stays where it is, and two dots lead to the directory above, or
/// stay at the root.
pub proof fn dots_lead_up(names: Seq<Seq<char>>)
    requires
        forall|i: int| 0 <= i < names.len() ==> is_plain_name(#[trigger] names[i]),
    ensures
        plain_names(names.push("."@)) == names,
        plain_names(names.push(".."@)) == (if names.len() == 0 {
            names
        } else {
            names.drop_last()
        }),
{
    reveal_strlit(".");
    reveal_strlit("..");
    assert("."@.len() == 1);
    plain_names_stay(names);
    assert(names.push("."@).drop_last() =~= names);
    assert(names.push(".."@).drop_last() =~= names);
    assert(".."@.len() == 2);
}

/// The directory above a file is the one that the file stands in.
pub proof fn files_stand_in_their_directory(names: Seq<Seq<char>>, file: Seq<char>)
    requires
        is_plain_name(file),
        forall|i: int| 0 <= i < names.len() ==> is_plain_name(#[trigger] names[i]),
    ensures
        parent_of(path_of(true, names.push(file))) == Some(path_of(true, names)),
{
    reveal_strlit("/");
    assert("/"@ =~= seq!['/']);
    let all = names.push(file);
    assert forall|i: int| 0 <= i < all.len() implies is_name(#[trigger] all[i]) by {
        if i < names.len() {
            assert(is_plain_name(names[i]));
            assert(all[i] == names[i]);
        }
    }
    names_of_joined(all);
    let tail = joined(all, "/"@);
    let path = path_of(true, all);
    assert(path =~= seq!['/'] + tail);
    names_around_separator(Seq::empty(), tail, Seq::empty());
    assert(Seq::<char>::empty() + seq!['/'] + tail =~= path);
    assert(path_names(path) =~= all);
    assert(all.drop_last() =~= names);
}

} // verus!
