//! Texts in order: maps and sets of texts as sorted vectors.

use vstd::prelude::*;

use crate::text::{characters, same_text};

#[allow(unused_imports)]
use crate::text::{pairs, texts};

verus! {

/// Whether a text comes before another, character by character.
pub open spec fn text_before(a: Seq<char>, b: Seq<char>) -> bool
    decreases a.len(),
{
    if b.len() == 0 {
        false
    } else if a.len() == 0 {
        true
    } else if a[0] != b[0] {
        a[0] < b[0]
    } else {
        text_before(a.skip(1), b.skip(1))
    }
}

/// Whether texts stand in order, each one once.
pub open spec fn ordered(keys: Seq<Seq<char>>) -> bool {
    forall|i: int, j: int| 0 <= i < j < keys.len() ==> text_before(#[trigger] keys[i], #[trigger] keys[j])
}

/// The first place from `from` on whose text does not come before a key.
pub open spec fn slot(keys: Seq<Seq<char>>, key: Seq<char>, from: int) -> int
    decreases keys.len() - from,
{
    if from < 0 || from >= keys.len() {
        keys.len() as int
    } else if text_before(keys[from], key) {
        slot(keys, key, from + 1)
    } else {
        from
    }
}

/// The keys of entries.
pub open spec fn keys_of(entries: Seq<(Seq<char>, Seq<char>)>) -> Seq<Seq<char>> {
    entries.map_values(|entry: (Seq<char>, Seq<char>)| entry.0)
}

/// Entries with a key set to a value.
pub open spec fn placed(
    entries: Seq<(Seq<char>, Seq<char>)>,
    key: Seq<char>,
    value: Seq<char>,
) -> Seq<(Seq<char>, Seq<char>)> {
    let at = slot(keys_of(entries), key, 0);
    if at < entries.len() && entries[at].0 == key {
        entries.update(at, (key, value))
    } else {
        entries.insert(at, (key, value))
    }
}

/// Entries without a key.
pub open spec fn dropped(entries: Seq<(Seq<char>, Seq<char>)>, key: Seq<char>) -> Seq<
    (Seq<char>, Seq<char>),
> {
    let at = slot(keys_of(entries), key, 0);
    if at < entries.len() && entries[at].0 == key {
        entries.remove(at)
    } else {
        entries
    }
}

/// Texts with one more.
pub open spec fn joined_name(names: Seq<Seq<char>>, name: Seq<char>) -> Seq<Seq<char>> {
    let at = slot(names, name, 0);
    if at < names.len() && names[at] == name {
        names
    } else {
        names.insert(at, name)
    }
}

/// Texts without one.
pub open spec fn left_name(names: Seq<Seq<char>>, name: Seq<char>) -> Seq<Seq<char>> {
    let at = slot(names, name, 0);
    if at < names.len() && names[at] == name {
        names.remove(at)
    } else {
        names
    }
}

proof fn slot_bounds(keys: Seq<Seq<char>>, key: Seq<char>, from: int)
    requires
        0 <= from <= keys.len(),
    ensures
        from <= slot(keys, key, from) <= keys.len(),
        forall|i: int| from <= i < slot(keys, key, from) ==> text_before(#[trigger] keys[i], key),
        slot(keys, key, from) < keys.len() ==> !text_before(keys[slot(keys, key, from)], key),
    decreases keys.len() - from,
{
    if from < keys.len() && text_before(keys[from], key) {
        slot_bounds(keys, key, from + 1);
    }
}

/// Whether a text comes before another, character by character.
pub fn comes_before(a: &str, b: &str) -> (r: bool)
    ensures
        r == text_before(a@, b@),
{
    let first = characters(a);
    let second = characters(b);
    let mut index: usize = 0;
    proof {
        assert(a@.skip(0) =~= a@);
        assert(b@.skip(0) =~= b@);
    }
    while index < first.len() && index < second.len()
        invariant
            first@ == a@,
            second@ == b@,
            index <= first.len(),
            index <= second.len(),
            text_before(a@, b@) == text_before(a@.skip(index as int), b@.skip(index as int)),
        decreases first.len() - index,
    {
        let ghost rest = a@.skip(index as int);
        let ghost other = b@.skip(index as int);
        proof {
            assert(rest[0] == first@[index as int]);
            assert(other[0] == second@[index as int]);
        }
        if first[index] != second[index] {
            return first[index] < second[index];
        }
        proof {
            assert(rest.skip(1) =~= a@.skip(index + 1));
            assert(other.skip(1) =~= b@.skip(index + 1));
        }
        index = index + 1;
    }
    index < second.len()
}

fn slot_of_entry(entries: &Vec<(String, String)>, key: &str) -> (r: usize)
    ensures
        r == slot(keys_of(pairs(entries@)), key@, 0),
        r <= entries@.len(),
{
    let ghost keys = keys_of(pairs(entries@));
    let mut index: usize = 0;
    while index < entries.len()
        invariant
            keys == keys_of(pairs(entries@)),
            index <= entries.len(),
            slot(keys, key@, 0) == slot(keys, key@, index as int),
        decreases entries.len() - index,
    {
        proof {
            assert(keys[index as int] == entries@[index as int].0@);
        }
        if !comes_before(entries[index].0.as_str(), key) {
            return index;
        }
        index = index + 1;
    }
    index
}

fn slot_of_name(names: &Vec<String>, name: &str) -> (r: usize)
    ensures
        r == slot(texts(names@), name@, 0),
        r <= names@.len(),
{
    let ghost keys = texts(names@);
    let mut index: usize = 0;
    while index < names.len()
        invariant
            keys == texts(names@),
            index <= names.len(),
            slot(keys, name@, 0) == slot(keys, name@, index as int),
        decreases names.len() - index,
    {
        proof {
            assert(keys[index as int] == names@[index as int]@);
        }
        if !comes_before(names[index].as_str(), name) {
            return index;
        }
        index = index + 1;
    }
    index
}

/// Set a key to a value.
pub fn place(entries: &mut Vec<(String, String)>, key: &str, value: &str)
    ensures
        pairs(final(entries)@) == placed(pairs(old(entries)@), key@, value@),
{
    let ghost before = pairs(entries@);
    let at: usize = slot_of_entry(entries, key);
    if at < entries.len() && same_text(entries[at].0.as_str(), key) {
        entries.set(at, (key.to_owned(), value.to_owned()));
        proof {
            assert(pairs(entries@) =~= before.update(at as int, (key@, value@)));
        }
    } else {
        entries.insert(at, (key.to_owned(), value.to_owned()));
        proof {
            assert(pairs(entries@) =~= before.insert(at as int, (key@, value@)));
        }
    }
}

/// Remove a key.
pub fn drop_key(entries: &mut Vec<(String, String)>, key: &str)
    ensures
        pairs(final(entries)@) == dropped(pairs(old(entries)@), key@),
{
    let ghost before = pairs(entries@);
    let at: usize = slot_of_entry(entries, key);
    if at < entries.len() && same_text(entries[at].0.as_str(), key) {
        entries.remove(at);
        proof {
            assert(pairs(entries@) =~= before.remove(at as int));
        }
    }
}

/// Add a text.
pub fn add_name(names: &mut Vec<String>, name: &str)
    ensures
        texts(final(names)@) == joined_name(texts(old(names)@), name@),
{
    let ghost before = texts(names@);
    let at: usize = slot_of_name(names, name);
    if at < names.len() && same_text(names[at].as_str(), name) {
    } else {
        names.insert(at, name.to_owned());
        proof {
            assert(texts(names@) =~= before.insert(at as int, name@));
        }
    }
}

/// Take a text away.
pub fn remove_name(names: &mut Vec<String>, name: &str)
    ensures
        texts(final(names)@) == left_name(texts(old(names)@), name@),
{
    let ghost before = texts(names@);
    let at: usize = slot_of_name(names, name);
    if at < names.len() && same_text(names[at].as_str(), name) {
        names.remove(at);
        proof {
            assert(texts(names@) =~= before.remove(at as int));
        }
    }
}

proof fn never_before_itself(a: Seq<char>)
    ensures
        !text_before(a, a),
    decreases a.len(),
{
    if a.len() > 0 {
        never_before_itself(a.skip(1));
    }
}

proof fn before_is_transitive(a: Seq<char>, b: Seq<char>, c: Seq<char>)
    requires
        text_before(a, b),
        text_before(b, c),
    ensures
        text_before(a, c),
    decreases a.len(),
{
    if a.len() > 0 && a[0] == b[0] && b[0] == c[0] {
        before_is_transitive(a.skip(1), b.skip(1), c.skip(1));
    }
}

proof fn one_comes_before(a: Seq<char>, b: Seq<char>)
    requires
        a != b,
    ensures
        text_before(a, b) || text_before(b, a),
    decreases a.len(),
{
    if a.len() == 0 {
        if b.len() == 0 {
            assert(a =~= b);
        }
    } else if b.len() > 0 && a[0] == b[0] {
        if a.skip(1) == b.skip(1) {
            assert(a =~= seq![a[0]] + a.skip(1));
            assert(b =~= seq![b[0]] + b.skip(1));
        }
        one_comes_before(a.skip(1), b.skip(1));
    }
}

/// In ordered texts a text can only stand in its slot.
proof fn slot_finds(keys: Seq<Seq<char>>, key: Seq<char>)
    requires
        ordered(keys),
    ensures
        keys.contains(key) <==> slot(keys, key, 0) < keys.len() && keys[slot(keys, key, 0)] == key,
        forall|i: int|
            slot(keys, key, 0) <= i < keys.len() && keys[slot(keys, key, 0)] != key ==> text_before(
                key,
                #[trigger] keys[i],
            ),
        forall|i: int| slot(keys, key, 0) < i < keys.len() ==> text_before(key, #[trigger] keys[i]),
{
    let at = slot(keys, key, 0);
    slot_bounds(keys, key, 0);
    if keys.contains(key) {
        let i = choose|i: int| 0 <= i < keys.len() && keys[i] == key;
        never_before_itself(key);
        if at < i {
            assert(text_before(keys[at], keys[i]));
        }
    }
    assert forall|i: int|
        at <= i < keys.len() && keys[at] != key implies text_before(key, #[trigger] keys[i]) by {
        one_comes_before(keys[at], key);
        if at < i {
            before_is_transitive(key, keys[at], keys[i]);
        }
    }
    assert forall|i: int| at < i < keys.len() implies text_before(key, #[trigger] keys[i]) by {
        assert(text_before(keys[at], keys[i]));
        if keys[at] != key {
            one_comes_before(keys[at], key);
            before_is_transitive(key, keys[at], keys[i]);
        }
    }
}

/// Texts in order differ from each other.
pub proof fn ordered_texts_are_distinct(names: Seq<Seq<char>>)
    requires
        ordered(names),
    ensures
        names.no_duplicates(),
{
    assert forall|i: int, j: int| 0 <= i < j < names.len() implies names[i] != names[j] by {
        never_before_itself(names[i]);
        assert(text_before(names[i], names[j]));
    }
}

/// Adding a text keeps the texts in order, each one once, and loses none.
pub proof fn adding_keeps_order(names: Seq<Seq<char>>, name: Seq<char>)
    requires
        ordered(names),
    ensures
        ordered(joined_name(names, name)),
        forall|other: Seq<char>|
            joined_name(names, name).contains(other) <==> (other == name || names.contains(other)),
{
    let at = slot(names, name, 0);
    let after = joined_name(names, name);
    slot_bounds(names, name, 0);
    slot_finds(names, name);
    if !(at < names.len() && names[at] == name) {
        assert forall|i: int, j: int| 0 <= i < j < after.len() implies text_before(
            #[trigger] after[i],
            #[trigger] after[j],
        ) by {
            let before_i = if i < at {
                i
            } else {
                i - 1
            };
            let before_j = if j < at {
                j
            } else {
                j - 1
            };
            if i == at {
                assert(text_before(name, names[before_j]));
            } else if j == at {
                assert(text_before(names[before_i], name));
            } else {
                assert(text_before(names[before_i], names[before_j]));
            }
        }
        assert forall|other: Seq<char>| after.contains(other) <==> (other == name || names.contains(
            other,
        )) by {
            if names.contains(other) {
                let i = choose|i: int| 0 <= i < names.len() && names[i] == other;
                assert(after[if i < at {
                    i
                } else {
                    i + 1
                }] == other);
            }
            if other == name {
                assert(after[at] == other);
            }
            if after.contains(other) {
                let i = choose|i: int| 0 <= i < after.len() && after[i] == other;
                if i < at {
                    assert(names[i] == other);
                } else if i > at {
                    assert(names[i - 1] == other);
                }
            }
        }
    } else {
        assert forall|other: Seq<char>| after.contains(other) <==> (other == name || names.contains(
            other,
        )) by {
            assert(names.contains(names[at]));
        }
    }
}

/// The value of a key.
pub open spec fn entry_of(entries: Seq<(Seq<char>, Seq<char>)>, key: Seq<char>) -> Option<Seq<char>> {
    let at = slot(keys_of(entries), key, 0);
    if at < entries.len() && entries[at].0 == key {
        Some(entries[at].1)
    } else {
        None
    }
}

proof fn same_slot(
    before: Seq<Seq<char>>,
    after: Seq<Seq<char>>,
    other: Seq<char>,
    known: bool,
)
    requires
        ordered(before),
        ordered(after),
        known == before.contains(other),
        known == after.contains(other),
    ensures
        known ==> slot(before, other, 0) < before.len() && before[slot(before, other, 0)] == other
            && slot(after, other, 0) < after.len() && after[slot(after, other, 0)] == other,
        !known ==> !(slot(before, other, 0) < before.len() && before[slot(before, other, 0)]
            == other) && !(slot(after, other, 0) < after.len() && after[slot(after, other, 0)]
            == other),
{
    slot_finds(before, other);
    slot_finds(after, other);
}

/// Setting a key keeps the entries in order, and the last value set is the one
/// that is read back.
pub proof fn last_value_wins(
    entries: Seq<(Seq<char>, Seq<char>)>,
    key: Seq<char>,
    value: Seq<char>,
)
    requires
        ordered(keys_of(entries)),
    ensures
        ordered(keys_of(placed(entries, key, value))),
        entry_of(placed(entries, key, value), key) == Some(value),
        keys_of(placed(entries, key, value)) == joined_name(keys_of(entries), key),
{
    let keys = keys_of(entries);
    let at = slot(keys, key, 0);
    let after = placed(entries, key, value);
    slot_bounds(keys, key, 0);
    adding_keeps_order(keys, key);
    if at < entries.len() && entries[at].0 == key {
        assert(keys_of(after) =~= keys);
    } else {
        assert(keys_of(after) =~= keys.insert(at, key));
    }
    slot_finds(keys_of(after), key);
    let found = slot(keys_of(after), key, 0);
    assert(keys_of(after)[at] == key);
    if found < at {
        assert(text_before(keys_of(after)[found], keys_of(after)[at]));
        never_before_itself(key);
    } else if at < found {
        assert(text_before(keys_of(after)[at], keys_of(after)[found]));
        never_before_itself(key);
    }
}

/// Setting a key leaves every other key as it was.
pub proof fn other_values_stay(
    entries: Seq<(Seq<char>, Seq<char>)>,
    key: Seq<char>,
    value: Seq<char>,
    other: Seq<char>,
)
    requires
        ordered(keys_of(entries)),
        other != key,
    ensures
        entry_of(placed(entries, key, value), other) == entry_of(entries, other),
{
    let keys = keys_of(entries);
    let at = slot(keys, key, 0);
    let after = placed(entries, key, value);
    let after_keys = keys_of(after);
    last_value_wins(entries, key, value);
    adding_keeps_order(keys, key);
    same_slot(keys, after_keys, other, keys.contains(other));
    slot_bounds(keys, other, 0);
    slot_bounds(after_keys, other, 0);
    assert(forall|i: int| 0 <= i < entries.len() ==> #[trigger] keys[i] == entries[i].0);
    assert(forall|i: int| 0 <= i < after.len() ==> #[trigger] after_keys[i] == after[i].0);
    if keys.contains(other) {
        let i = slot(keys, other, 0);
        let j = slot(after_keys, other, 0);
        let moved = if at < entries.len() && entries[at].0 == key {
            i
        } else if i < at {
            i
        } else {
            i + 1
        };
        slot_bounds(keys, key, 0);
        assert(after[moved] == entries[i]);
        assert(after_keys[moved] == other);
        if moved < j {
            assert(text_before(after_keys[moved], after_keys[j]));
            never_before_itself(other);
        } else if j < moved {
            assert(text_before(after_keys[j], after_keys[moved]));
            never_before_itself(other);
        }
    }
}

/// Taking a text out keeps the order, and takes out that text alone.
pub proof fn leaving_keeps_order(names: Seq<Seq<char>>, name: Seq<char>)
    requires
        ordered(names),
    ensures
        ordered(left_name(names, name)),
        forall|other: Seq<char>|
            #![trigger left_name(names, name).contains(other)]
            #![trigger names.contains(other)]
            left_name(names, name).contains(other) <==> (other != name && names.contains(other)),
{
    let at = slot(names, name, 0);
    let after = left_name(names, name);
    slot_bounds(names, name, 0);
    slot_finds(names, name);
    never_before_itself(name);
    let found = at < names.len() && names[at] == name;
    if found {
        assert forall|i: int, j: int| 0 <= i < j < after.len() implies text_before(
            #[trigger] after[i],
            #[trigger] after[j],
        ) by {
            let before_i = if i < at {
                i
            } else {
                i + 1
            };
            let before_j = if j < at {
                j
            } else {
                j + 1
            };
            assert(text_before(names[before_i], names[before_j]));
        }
    }
    assert forall|other: Seq<char>|
        after.contains(other) <==> (other != name && names.contains(other)) by {
        if names.contains(other) && other != name {
            let i = choose|i: int| 0 <= i < names.len() && names[i] == other;
            assert(after[if found && i > at {
                i - 1
            } else {
                i
            }] == other);
        }
        if after.contains(other) {
            let i = choose|i: int| 0 <= i < after.len() && after[i] == other;
            let before = if found && i >= at {
                i + 1
            } else {
                i
            };
            assert(names[before] == other);
            if found {
                if before < at {
                    assert(text_before(names[before], names[at]));
                } else {
                    assert(text_before(names[at], names[before]));
                }
            }
        }
    }
}

proof fn keys_left(entries: Seq<(Seq<char>, Seq<char>)>, key: Seq<char>)
    ensures
        keys_of(dropped(entries, key)) == left_name(keys_of(entries), key),
{
    slot_bounds(keys_of(entries), key, 0);
    let at = slot(keys_of(entries), key, 0);
    if at < entries.len() && entries[at].0 == key {
        assert(keys_of(dropped(entries, key)) =~= keys_of(entries).remove(at));
    }
}

/// A key that was taken out has no value, and the other entries stay in order.
pub proof fn dropped_value_is_gone(entries: Seq<(Seq<char>, Seq<char>)>, key: Seq<char>)
    requires
        ordered(keys_of(entries)),
    ensures
        ordered(keys_of(dropped(entries, key))),
        entry_of(dropped(entries, key), key) is None,
{
    keys_left(entries, key);
    leaving_keeps_order(keys_of(entries), key);
    let after = keys_of(dropped(entries, key));
    slot_finds(after, key);
    slot_bounds(after, key, 0);
    let at = slot(after, key, 0);
    if at < after.len() {
        assert(after[at] == dropped(entries, key)[at].0);
    }
}

/// Taking a key out leaves every other key as it was.
pub proof fn other_values_outlast_a_drop(
    entries: Seq<(Seq<char>, Seq<char>)>,
    key: Seq<char>,
    other: Seq<char>,
)
    requires
        ordered(keys_of(entries)),
        other != key,
    ensures
        entry_of(dropped(entries, key), other) == entry_of(entries, other),
{
    let keys = keys_of(entries);
    let at = slot(keys, key, 0);
    let after = dropped(entries, key);
    let after_keys = keys_of(after);
    keys_left(entries, key);
    leaving_keeps_order(keys, key);
    same_slot(keys, after_keys, other, keys.contains(other));
    slot_bounds(keys, key, 0);
    slot_bounds(keys, other, 0);
    slot_bounds(after_keys, other, 0);
    assert(forall|i: int| 0 <= i < entries.len() ==> #[trigger] keys[i] == entries[i].0);
    assert(forall|i: int| 0 <= i < after.len() ==> #[trigger] after_keys[i] == after[i].0);
    if keys.contains(other) {
        let i = slot(keys, other, 0);
        let j = slot(after_keys, other, 0);
        let moved = if at < entries.len() && entries[at].0 == key && i > at {
            i - 1
        } else {
            i
        };
        assert(after[moved] == entries[i]);
        assert(after_keys[moved] == other);
        never_before_itself(other);
        if moved < j {
            assert(text_before(after_keys[moved], after_keys[j]));
        } else if j < moved {
            assert(text_before(after_keys[j], after_keys[moved]));
        }
    }
}

/// In ordered entries a key is found with the value that stands beside it, and
/// with no other.
pub proof fn entries_are_found(entries: Seq<(Seq<char>, Seq<char>)>, key: Seq<char>)
    requires
        ordered(keys_of(entries)),
    ensures
        match entry_of(entries, key) {
            Some(value) => entries.contains((key, value)),
            None => !keys_of(entries).contains(key),
        },
        forall|i: int|
            0 <= i < entries.len() && (#[trigger] entries[i]).0 == key ==> entry_of(entries, key)
                == Some(entries[i].1),
{
    let keys = keys_of(entries);
    slot_finds(keys, key);
    slot_bounds(keys, key, 0);
    let at = slot(keys, key, 0);
    assert(forall|i: int| 0 <= i < entries.len() ==> #[trigger] keys[i] == entries[i].0);
    if at < entries.len() && entries[at].0 == key {
        assert(entries[at] == (key, entries[at].1));
    }
    assert forall|i: int| 0 <= i < entries.len() && (#[trigger] entries[i]).0 == key implies entry_of(
        entries,
        key,
    ) == Some(entries[i].1) by {
        assert(keys[i] == key);
        assert(keys.contains(key));
        if i < at {
            assert(text_before(keys[i], keys[at]));
            never_before_itself(key);
        } else if at < i {
            assert(text_before(keys[at], keys[i]));
            never_before_itself(key);
        }
    }
}

} // verus!
