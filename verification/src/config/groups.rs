//! Process Groups: the visual order of Processes. Listed Processes stand in
//! the order of their Groups; unlisted ones follow in the order of the file.

use vstd::prelude::*;

use super::error::ConfigError;
use crate::scan::{trim, Blank};
use crate::text::{concat3, concat5, same_text};

#[allow(unused_imports)]
use crate::scan::{option_view, trimmed};
#[allow(unused_imports)]
use crate::text::texts;

verus! {

/// The Processes of the first `count` Groups, each with its Group.
pub open spec fn listed(groups: Seq<(String, Vec<String>)>, count: int) -> Seq<
    (Seq<char>, Seq<char>),
>
    decreases count,
{
    if count <= 0 || count > groups.len() {
        Seq::empty()
    } else {
        let group = groups[count - 1];
        listed(groups, count - 1) + texts(group.1@).map_values(
            |name: Seq<char>| (name, group.0@),
        )
    }
}

/// The names of listed Processes.
pub open spec fn listed_names(entries: Seq<(Seq<char>, Seq<char>)>) -> Seq<Seq<char>> {
    entries.map_values(|entry: (Seq<char>, Seq<char>)| entry.0)
}

/// Why members of a Group from `from` on cannot be listed.
pub open spec fn members_fault(
    names: Seq<Seq<char>>,
    earlier: Seq<Seq<char>>,
    group: Seq<char>,
    members: Seq<Seq<char>>,
    from: int,
) -> Option<Seq<char>>
    decreases members.len() - from,
{
    if from < 0 || from >= members.len() {
        None
    } else if !names.contains(members[from]) {
        Some(
            "Process Group '"@ + group + "': Process '"@ + members[from]
                + "' is not configured"@,
        )
    } else if earlier.contains(members[from]) || members.take(from).contains(members[from]) {
        Some("Process '"@ + members[from] + "' belongs to more than one Process Group"@)
    } else {
        members_fault(names, earlier, group, members, from + 1)
    }
}

/// Why one Group cannot be used, where others stand before it.
pub open spec fn group_fault(
    names: Seq<Seq<char>>,
    groups: Seq<(String, Vec<String>)>,
    at: int,
) -> Option<Seq<char>> {
    let group = groups[at].0@;
    let members = texts(groups[at].1@);
    if trimmed(group, Blank::White) == "Other"@ {
        Some("Process Group name 'Other' is reserved for ungrouped Processes"@)
    } else if members.len() == 0 {
        Some("Process Group '"@ + group + "' must contain at least one Process"@)
    } else {
        members_fault(names, listed_names(listed(groups, at)), group, members, 0)
    }
}

/// Why Groups from `from` on cannot be used.
pub open spec fn groups_fault(
    names: Seq<Seq<char>>,
    groups: Seq<(String, Vec<String>)>,
    from: int,
) -> Option<Seq<char>>
    decreases groups.len() - from,
{
    if from < 0 || from >= groups.len() {
        None
    } else {
        match group_fault(names, groups, from) {
            Some(fault) => Some(fault),
            None => groups_fault(names, groups, from + 1),
        }
    }
}

/// The positions from `from` on of Processes that no Group lists.
pub open spec fn unlisted(names: Seq<Seq<char>>, known: Seq<Seq<char>>, from: int) -> Seq<int>
    decreases names.len() - from,
{
    if from < 0 || from >= names.len() {
        Seq::empty()
    } else if known.contains(names[from]) {
        unlisted(names, known, from + 1)
    } else {
        seq![from] + unlisted(names, known, from + 1)
    }
}

/// The first position of a name.
pub open spec fn name_position(names: Seq<Seq<char>>, name: Seq<char>, from: int) -> int
    decreases names.len() - from,
{
    if from < 0 || from >= names.len() {
        names.len() as int
    } else if names[from] == name {
        from
    } else {
        name_position(names, name, from + 1)
    }
}

/// The visual order of Processes: the position of each and its Group.
pub open spec fn visual_order(names: Seq<Seq<char>>, groups: Seq<(String, Vec<String>)>) -> Seq<
    (int, Option<Seq<char>>),
> {
    let members = listed(groups, groups.len() as int);
    members.map_values(
        |entry: (Seq<char>, Seq<char>)| (name_position(names, entry.0, 0), Some(entry.1)),
    ) + unlisted(names, listed_names(members), 0).map_values(
        |index: int| (index, None::<Seq<char>>),
    )
}

/// One Process in the visual order.
#[derive(Clone, Debug, PartialEq, Eq)]
pub struct OrderedProcess {
    pub index: usize,
    pub group: Option<String>,
}

/// An order as mathematical values.
pub open spec fn order_view(order: Seq<OrderedProcess>) -> Seq<(int, Option<Seq<char>>)> {
    order.map_values(|entry: OrderedProcess| (entry.index as int, option_view(entry.group)))
}

fn position_in(names: &Vec<String>, name: &str) -> (r: usize)
    ensures
        r == name_position(texts(names@), name@, 0),
        r < names@.len() <==> texts(names@).contains(name@),
        r <= names@.len(),
{
    let ghost all = texts(names@);
    let mut index: usize = 0;
    while index < names.len()
        invariant
            all == texts(names@),
            index <= names.len(),
            name_position(all, name@, 0) == name_position(all, name@, index as int),
            forall|i: int| 0 <= i < index ==> all[i] != name@,
        decreases names.len() - index,
    {
        proof {
            assert(all[index as int] == names@[index as int]@);
        }
        if same_text(names[index].as_str(), name) {
            return index;
        }
        index = index + 1;
    }
    index
}

/// The listed Processes so far, and their names.
pub open spec fn order_holds(
    names: Seq<Seq<char>>,
    order: Seq<OrderedProcess>,
    entries: Seq<(Seq<char>, Seq<char>)>,
) -> bool {
    &&& order.len() == entries.len()
    &&& forall|i: int|
        0 <= i < order.len() ==> {
            &&& (#[trigger] order[i]).index < names.len()
            &&& order[i].index == name_position(names, entries[i].0, 0)
            &&& option_view(order[i].group) == Some(entries[i].1)
            &&& names[order[i].index as int] == entries[i].0
        }
}

fn is_listed(names: &Vec<String>, order: &Vec<OrderedProcess>, count: usize, name: &str) -> (r: bool)
    requires
        count <= order.len(),
        forall|i: int| 0 <= i < order.len() ==> (#[trigger] order@[i]).index < names.len(),
    ensures
        r == exists|i: int|
            0 <= i < count && names@[(#[trigger] order@[i]).index as int]@ == name@,
{
    let mut index: usize = 0;
    while index < count
        invariant
            index <= count <= order.len(),
            forall|i: int| 0 <= i < order.len() ==> (#[trigger] order@[i]).index < names.len(),
            forall|i: int|
                0 <= i < index ==> names@[(#[trigger] order@[i]).index as int]@ != name@,
        decreases count - index,
    {
        if same_text(names[order[index].index].as_str(), name) {
            return true;
        }
        index = index + 1;
    }
    false
}

/// The visual order of Processes.
pub fn order_processes(names: &Vec<String>, groups: &Vec<(String, Vec<String>)>) -> (r: Result<
    Vec<OrderedProcess>,
    ConfigError,
>)
    ensures
        match r {
            Ok(order) => {
                &&& groups_fault(texts(names@), groups@, 0) is None
                &&& order_view(order@) == visual_order(texts(names@), groups@)
                &&& forall|i: int|
                    0 <= i < order@.len() ==> (#[trigger] order@[i]).index < names@.len()
            },
            Err(error) => groups_fault(texts(names@), groups@, 0) == Some(error.message@),
        },
{
    let ghost all = texts(names@);
    let mut order: Vec<OrderedProcess> = Vec::new();
    let mut at: usize = 0;
    while at < groups.len()
        invariant
            all == texts(names@),
            at <= groups.len(),
            order_holds(all, order@, listed(groups@, at as int)),
            groups_fault(all, groups@, 0) == groups_fault(all, groups@, at as int),
        decreases groups.len() - at,
    {
        let group = groups[at].0.as_str();
        let members = &groups[at].1;
        if same_text(trim(group, Blank::White).as_str(), "Other") {
            return Err(
                ConfigError {
                    message:
                        "Process Group name 'Other' is reserved for ungrouped Processes".to_owned(),
                },
            );
        }
        if members.len() == 0 {
            return Err(
                ConfigError {
                    message: concat3(
                        "Process Group '",
                        group,
                        "' must contain at least one Process",
                    ),
                },
            );
        }
        let ghost known = listed(groups@, at as int);
        let ghost earlier = listed_names(known);
        let ghost words = texts(members@);
        let ghost added = words.map_values(|name: Seq<char>| (name, group@));
        let mut index: usize = 0;
        proof {
            assert(known + added.take(0) =~= known);
        }
        while index < members.len()
            invariant
                all == texts(names@),
                at < groups.len(),
                groups@[at as int].0@ == group@,
                groups@[at as int].1 == *members,
                words == texts(members@),
                words.len() > 0,
                added == words.map_values(|name: Seq<char>| (name, group@)),
                known == listed(groups@, at as int),
                earlier == listed_names(known),
                trimmed(group@, Blank::White) != "Other"@,
                index <= members.len(),
                order_holds(all, order@, known + added.take(index as int)),
                members_fault(all, earlier, group@, words, 0) == members_fault(
                    all,
                    earlier,
                    group@,
                    words,
                    index as int,
                ),
                groups_fault(all, groups@, 0) == groups_fault(all, groups@, at as int),
            decreases members.len() - index,
        {
            let name = members[index].as_str();
            let ghost entries = known + added.take(index as int);
            proof {
                assert(words[index as int] == name@);
            }
            let position: usize = position_in(names, name);
            if position == names.len() {
                return Err(
                    ConfigError {
                        message: concat5(
                            "Process Group '",
                            group,
                            "': Process '",
                            name,
                            "' is not configured",
                        ),
                    },
                );
            }
            let repeated = is_listed(names, &order, order.len(), name);
            proof {
                listed_before(all, order@, known, added, index as int, words, group@, name@);
                assert(repeated == (earlier.contains(name@) || words.take(
                    index as int,
                ).contains(name@))) by {
                    if repeated {
                        let i = choose|i: int|
                            0 <= i < order@.len() && names@[(#[trigger] order@[i]).index as int]@
                                == name@;
                        assert(all[order@[i].index as int] == name@);
                        assert(entries[i].0 == name@);
                    } else if exists|i: int| 0 <= i < entries.len() && entries[i].0 == name@ {
                        let i = choose|i: int| 0 <= i < entries.len() && entries[i].0 == name@;
                        assert(names@[order@[i].index as int]@ == name@);
                    }
                }
            }
            if repeated {
                return Err(
                    ConfigError {
                        message: concat3(
                            "Process '",
                            name,
                            "' belongs to more than one Process Group",
                        ),
                    },
                );
            }
            let ghost before = order@;
            order.push(OrderedProcess { index: position, group: Some(group.to_owned()) });
            index = index + 1;
            proof {
                let next = known + added.take(index as int);
                assert(next =~= entries.push((name@, group@)));
                assert forall|i: int| 0 <= i < order@.len() implies {
                    &&& (#[trigger] order@[i]).index < all.len()
                    &&& order@[i].index == name_position(all, next[i].0, 0)
                    &&& option_view(order@[i].group) == Some(next[i].1)
                    &&& all[order@[i].index as int] == next[i].0
                } by {
                    if i < before.len() {
                        assert(before[i] == order@[i]);
                        assert(next[i] == entries[i]);
                    } else {
                        position_names(all, name@, 0);
                    }
                }
            }
        }
        proof {
            assert(added.take(index as int) =~= added);
            assert(listed(groups@, at + 1) =~= known + added);
        }
        at = at + 1;
    }
    let ghost members = listed(groups@, groups@.len() as int);
    let ghost known = listed_names(members);
    let grouped: usize = order.len();
    let ghost front = order@;
    let ghost mut rest: Seq<int> = Seq::empty();
    let mut index: usize = 0;
    while index < names.len()
        invariant
            all == texts(names@),
            index <= names.len(),
            members == listed(groups@, groups@.len() as int),
            known == listed_names(members),
            groups_fault(all, groups@, 0) is None,
            grouped == front.len(),
            order_holds(all, front, members),
            order@.len() == front.len() + rest.len(),
            order@.take(front.len() as int) == front,
            forall|i: int| 0 <= i < order@.len() ==> (#[trigger] order@[i]).index < names@.len(),
            forall|i: int|
                0 <= i < rest.len() ==> order@[front.len() + i].index == #[trigger] rest[i]
                    && order@[front.len() + i].group is None,
            rest + unlisted(all, known, index as int) == unlisted(all, known, 0),
        decreases names.len() - index,
    {
        let name = names[index].as_str();
        let ghost before = order@;
        let ghost earlier = rest;
        let is_known = is_listed(names, &order, grouped, name);
        proof {
            assert(all[index as int] == name@);
            assert forall|i: int| 0 <= i < front.len() implies #[trigger] order@[i] == front[i] by {
                assert(order@.take(front.len() as int)[i] == front[i]);
            }
            assert(is_known == known.contains(name@)) by {
                if is_known {
                    let i = choose|i: int|
                        0 <= i < grouped && names@[(#[trigger] order@[i]).index as int]@ == name@;
                    assert(front[i] == order@[i]);
                    assert(all[front[i].index as int] == members[i].0);
                    assert(known[i] == name@);
                } else if known.contains(name@) {
                    let i = choose|i: int| 0 <= i < known.len() && known[i] == name@;
                    assert(members[i].0 == name@);
                    assert(all[front[i].index as int] == members[i].0);
                    assert(front[i] == order@[i]);
                    assert(names@[order@[i].index as int]@ == name@);
                }
            }
        }
        if !is_known {
            order.push(OrderedProcess { index, group: None });
            proof {
                rest = rest.push(index as int);
                assert(order@.take(front.len() as int) =~= front);
                assert forall|i: int| 0 <= i < rest.len() implies order@[front.len() + i].index
                    == #[trigger] rest[i] && order@[front.len() + i].group is None by {
                    if i < earlier.len() {
                        assert(order@[front.len() + i] == before[front.len() + i]);
                        assert(rest[i] == earlier[i]);
                    }
                }
                assert(earlier + (seq![index as int] + unlisted(all, known, index + 1)) =~= rest
                    + unlisted(all, known, index + 1));
            }
        }
        index = index + 1;
    }
    proof {
        assert(unlisted(all, known, index as int) =~= Seq::<int>::empty());
        assert(rest =~= unlisted(all, known, 0));
        let whole = visual_order(all, groups@);
        assert forall|i: int| 0 <= i < order@.len() implies #[trigger] order_view(order@)[i]
            == whole[i] by {
            if i < front.len() {
                assert(order@.take(front.len() as int)[i] == front[i]);
            } else {
                let k = i - front.len();
                assert(order@[front.len() + k].index == rest[k]);
            }
        }
        assert(order_view(order@) =~= whole);
    }
    Ok(order)
}

proof fn position_names(names: Seq<Seq<char>>, name: Seq<char>, from: int)
    requires
        0 <= from <= names.len(),
        name_position(names, name, from) < names.len(),
    ensures
        names[name_position(names, name, from)] == name,
    decreases names.len() - from,
{
    if from < names.len() && names[from] != name {
        position_names(names, name, from + 1);
    }
}

/// A name is among the entries listed so far where an earlier Group or an
/// earlier member of this one has it.
proof fn listed_before(
    names: Seq<Seq<char>>,
    order: Seq<OrderedProcess>,
    known: Seq<(Seq<char>, Seq<char>)>,
    added: Seq<(Seq<char>, Seq<char>)>,
    count: int,
    words: Seq<Seq<char>>,
    group: Seq<char>,
    name: Seq<char>,
)
    requires
        0 <= count <= words.len(),
        added == words.map_values(|name: Seq<char>| (name, group)),
        order_holds(names, order, known + added.take(count)),
    ensures
        (exists|i: int|
            0 <= i < (known + added.take(count)).len() && (known + added.take(count))[i].0 == name)
            <==> (listed_names(known).contains(name) || words.take(count).contains(name)),
{
    let entries = known + added.take(count);
    if exists|i: int| 0 <= i < entries.len() && entries[i].0 == name {
        let i = choose|i: int| 0 <= i < entries.len() && entries[i].0 == name;
        if i < known.len() {
            assert(listed_names(known)[i] == name);
        } else {
            assert(words.take(count)[i - known.len()] == name);
        }
    }
    if listed_names(known).contains(name) {
        let i = choose|i: int| 0 <= i < known.len() && listed_names(known)[i] == name;
        assert(entries[i].0 == name);
    }
    if words.take(count).contains(name) {
        let i = choose|i: int| 0 <= i < count && words.take(count)[i] == name;
        assert(entries[known.len() + i].0 == name);
    }
}

proof fn members_are_new(
    names: Seq<Seq<char>>,
    earlier: Seq<Seq<char>>,
    group: Seq<char>,
    members: Seq<Seq<char>>,
    from: int,
)
    requires
        0 <= from <= members.len(),
        members_fault(names, earlier, group, members, from) is None,
    ensures
        forall|k: int|
            from <= k < members.len() ==> {
                &&& names.contains(#[trigger] members[k])
                &&& !earlier.contains(members[k])
                &&& !members.take(k).contains(members[k])
            },
    decreases members.len() - from,
{
    if from < members.len() {
        members_are_new(names, earlier, group, members, from + 1);
    }
}

proof fn every_group_is_usable(
    names: Seq<Seq<char>>,
    groups: Seq<(String, Vec<String>)>,
    from: int,
)
    requires
        0 <= from <= groups.len(),
        groups_fault(names, groups, from) is None,
    ensures
        forall|at: int|
            from <= at < groups.len() ==> #[trigger] group_fault(names, groups, at) is None,
    decreases groups.len() - from,
{
    if from < groups.len() {
        every_group_is_usable(names, groups, from + 1);
    }
}

proof fn listed_once(names: Seq<Seq<char>>, groups: Seq<(String, Vec<String>)>, count: int)
    requires
        0 <= count <= groups.len(),
        groups_fault(names, groups, 0) is None,
    ensures
        listed_names(listed(groups, count)).no_duplicates(),
        forall|k: int|
            0 <= k < listed(groups, count).len() ==> names.contains(
                #[trigger] listed_names(listed(groups, count))[k],
            ),
    decreases count,
{
    if count > 0 {
        listed_once(names, groups, count - 1);
        every_group_is_usable(names, groups, 0);
        let group = groups[count - 1];
        let members = texts(group.1@);
        let before = listed_names(listed(groups, count - 1));
        let after = listed_names(listed(groups, count));
        assert(group_fault(names, groups, count - 1) is None);
        members_are_new(names, before, group.0@, members, 0);
        assert(after =~= before + members);
        assert forall|i: int, j: int| 0 <= i < j < after.len() implies after[i] != after[j] by {
            if j >= before.len() {
                let k = j - before.len();
                assert(after[j] == members[k]);
                if i >= before.len() {
                    assert(members.take(k)[i - before.len()] == after[i]);
                }
            }
        }
        assert forall|k: int| 0 <= k < after.len() implies names.contains(#[trigger] after[k]) by {
            if k >= before.len() {
                assert(after[k] == members[k - before.len()]);
            } else {
                assert(after[k] == before[k]);
            }
        }
    }
}

proof fn position_is_found(names: Seq<Seq<char>>, name: Seq<char>, from: int)
    requires
        0 <= from <= names.len(),
    ensures
        from <= name_position(names, name, from) <= names.len(),
        name_position(names, name, from) < names.len() ==> names[name_position(
            names,
            name,
            from,
        )] == name,
        forall|i: int| from <= i < names.len() && names[i] == name ==> name_position(
            names,
            name,
            from,
        ) <= i,
    decreases names.len() - from,
{
    if from < names.len() && names[from] != name {
        position_is_found(names, name, from + 1);
    }
}

proof fn unlisted_once(names: Seq<Seq<char>>, known: Seq<Seq<char>>, from: int)
    requires
        0 <= from <= names.len(),
    ensures
        ({
            let rest = unlisted(names, known, from);
            &&& forall|k: int|
                0 <= k < rest.len() ==> from <= #[trigger] rest[k] < names.len()
                    && !known.contains(names[rest[k]])
            &&& forall|j: int, k: int| 0 <= j < k < rest.len() ==> rest[j] < rest[k]
            &&& forall|i: int|
                from <= i < names.len() && !known.contains(#[trigger] names[i]) ==> rest.contains(
                    i,
                )
        }),
    decreases names.len() - from,
{
    if from < names.len() {
        unlisted_once(names, known, from + 1);
        let rest = unlisted(names, known, from);
        let later = unlisted(names, known, from + 1);
        if !known.contains(names[from]) {
            assert(rest =~= seq![from] + later);
            assert(rest[0] == from);
            assert forall|i: int|
                from <= i < names.len() && !known.contains(#[trigger] names[i]) implies rest.contains(
                i,
            ) by {
                if i > from {
                    let k = choose|k: int| 0 <= k < later.len() && later[k] == i;
                    assert(rest[k + 1] == i);
                }
            }
        }
    }
}

/// Whether a Process has a place in a visual order.
pub open spec fn has_place(order: Seq<(int, Option<Seq<char>>)>, index: int) -> bool {
    exists|k: int| 0 <= k < order.len() && (#[trigger] order[k]).0 == index
}

/// Usable Groups give every Process exactly one place in the visual order.
pub proof fn every_process_has_one_place(
    names: Seq<Seq<char>>,
    groups: Seq<(String, Vec<String>)>,
)
    requires
        names.no_duplicates(),
        groups_fault(names, groups, 0) is None,
    ensures
        forall|k: int|
            0 <= k < visual_order(names, groups).len() ==> 0 <= (#[trigger] visual_order(
                names,
                groups,
            )[k]).0 < names.len(),
        forall|j: int, k: int|
            0 <= j < k < visual_order(names, groups).len() ==> (#[trigger] visual_order(
                names,
                groups,
            )[j]).0 != (#[trigger] visual_order(names, groups)[k]).0,
        forall|i: int|
            0 <= i < names.len() ==> #[trigger] has_place(visual_order(names, groups), i),
{
    let order = visual_order(names, groups);
    let members = listed(groups, groups.len() as int);
    let known = listed_names(members);
    let rest = unlisted(names, known, 0);
    let count = members.len() as int;
    listed_once(names, groups, groups.len() as int);
    unlisted_once(names, known, 0);
    assert(order.len() == count + rest.len());
    assert forall|k: int| 0 <= k < count implies {
        &&& 0 <= (#[trigger] order[k]).0 < names.len()
        &&& names[order[k].0] == known[k]
    } by {
        position_is_found(names, known[k], 0);
        assert(names.contains(known[k]));
        assert(order[k].0 == name_position(names, members[k].0, 0));
    }
    assert forall|k: int| count <= k < order.len() implies (#[trigger] order[k]).0 == rest[k
        - count] by {}
    assert forall|j: int, k: int| 0 <= j < k < order.len() implies (#[trigger] order[j]).0 != (
    #[trigger] order[k]).0 by {
        if k < count {
            assert(known[j] != known[k]);
        } else if j < count {
            assert(known.contains(known[j]));
            assert(!known.contains(names[rest[k - count]]));
        } else {
            assert(rest[j - count] < rest[k - count]);
        }
    }
    assert forall|i: int| 0 <= i < names.len() implies #[trigger] has_place(order, i) by {
        if known.contains(names[i]) {
            let k = choose|k: int| 0 <= k < known.len() && known[k] == names[i];
            assert(names[order[k].0] == known[k]);
            assert(order[k].0 == i);
        } else {
            let k = choose|k: int| 0 <= k < rest.len() && rest[k] == i;
            assert(order[count + k].0 == i);
        }
    }
}

proof fn earlier_members_are_listed(
    groups: Seq<(String, Vec<String>)>,
    count: int,
    group: int,
    member: int,
)
    requires
        0 <= group < count <= groups.len(),
        0 <= member < groups[group].1@.len(),
    ensures
        listed(groups, count).contains((groups[group].1@[member]@, groups[group].0@)),
        listed_names(listed(groups, count)).contains(groups[group].1@[member]@),
    decreases count,
{
    let all = listed(groups, count);
    let before = listed(groups, count - 1);
    if group < count - 1 {
        earlier_members_are_listed(groups, count - 1, group, member);
        let k = choose|k: int|
            0 <= k < before.len() && before[k] == (groups[group].1@[member]@, groups[group].0@);
        assert(all[k] == before[k]);
        assert(listed_names(all)[k] == groups[group].1@[member]@);
    } else {
        let k = before.len() + member;
        assert(all[k] == (groups[group].1@[member]@, groups[group].0@));
        assert(listed_names(all)[k] == groups[group].1@[member]@);
    }
}

proof fn listed_come_from_groups(groups: Seq<(String, Vec<String>)>, count: int, k: int)
    requires
        0 <= count <= groups.len(),
        0 <= k < listed(groups, count).len(),
    ensures
        exists|group: int, member: int|
            #![trigger groups[group].1@[member]]
            0 <= group < count && 0 <= member < groups[group].1@.len() && listed(groups, count)[k]
                == (groups[group].1@[member]@, groups[group].0@),
    decreases count,
{
    if count > 0 {
        let before = listed(groups, count - 1);
        if k < before.len() {
            listed_come_from_groups(groups, count - 1, k);
            let (group, member) = choose|group: int, member: int|
                #![trigger groups[group].1@[member]]
                0 <= group < count - 1 && 0 <= member < groups[group].1@.len() && before[k] == (
                    groups[group].1@[member]@,
                    groups[group].0@,
                );
            assert(listed(groups, count)[k] == (groups[group].1@[member]@, groups[group].0@));
        } else {
            let member = k - before.len();
            assert(listed(groups, count)[k] == (
                groups[count - 1].1@[member]@,
                groups[count - 1].0@,
            ));
        }
    }
}

/// Accepted Groups have members, each of them a configured Process that no
/// Group lists twice and no other Group lists, and none is named `Other`.
pub proof fn accepted_groups_are_sound(
    names: Seq<Seq<char>>,
    groups: Seq<(String, Vec<String>)>,
    group: int,
    member: int,
)
    requires
        groups_fault(names, groups, 0) is None,
        0 <= group < groups.len(),
        0 <= member < groups[group].1@.len(),
    ensures
        groups[group].0@ != "Other"@,
        groups[group].1@.len() > 0,
        names.contains(groups[group].1@[member]@),
        forall|other: int|
            0 <= other < member ==> (#[trigger] groups[group].1@[other])@
                != groups[group].1@[member]@,
        forall|earlier: int, other: int|
            #![trigger groups[earlier].1@[other]]
            0 <= earlier < group && 0 <= other < groups[earlier].1@.len()
                ==> groups[earlier].1@[other]@ != groups[group].1@[member]@,
{
    every_group_is_usable(names, groups, 0);
    assert(group_fault(names, groups, group) is None);
    let members = texts(groups[group].1@);
    let before = listed_names(listed(groups, group));
    members_are_new(names, before, groups[group].0@, members, 0);
    assert(members[member] == groups[group].1@[member]@);
    assert(names.contains(members[member]));
    assert forall|other: int| 0 <= other < member implies (#[trigger] groups[group].1@[other])@
        != groups[group].1@[member]@ by {
        assert(members.take(member)[other] == members[other]);
    }
    assert forall|earlier: int, other: int|
        #![trigger groups[earlier].1@[other]]
        0 <= earlier < group && 0 <= other < groups[earlier].1@.len() implies groups[earlier].1@[other]@
        != groups[group].1@[member]@ by {
        earlier_members_are_listed(groups, group, earlier, other);
    }
    reveal_strlit("Other");
    if groups[group].0@ == "Other"@ {
        let name = "Other"@;
        assert(crate::scan::first_kept(name, Blank::White, 0) == 0);
        assert(name.skip(0) =~= name);
        assert(crate::scan::last_kept(name, Blank::White, 5) == 5);
        assert(name.take(5) =~= name);
    }
}

/// The visual order keeps the Groups together, before every Process without
/// one, which come in the order of the file. A place names the Group that lists
/// its Process, and none exactly where no Group does.
pub proof fn groups_come_first(
    names: Seq<Seq<char>>,
    groups: Seq<(String, Vec<String>)>,
    k: int,
)
    requires
        groups_fault(names, groups, 0) is None,
        0 <= k < visual_order(names, groups).len(),
    ensures
        ({
            let order = visual_order(names, groups);
            let (index, group) = order[k];
            &&& 0 <= index < names.len()
            &&& match group {
                Some(name) => exists|g: int, m: int|
                    #![trigger groups[g].1@[m]]
                    0 <= g < groups.len() && 0 <= m < groups[g].1@.len() && groups[g].0@ == name
                        && groups[g].1@[m]@ == names[index],
                None => forall|g: int, m: int|
                    #![trigger groups[g].1@[m]]
                    0 <= g < groups.len() && 0 <= m < groups[g].1@.len() ==> groups[g].1@[m]@
                        != names[index],
            }
            &&& group is None ==> forall|later: int|
                k < later < order.len() ==> (#[trigger] order[later]).1 is None && index
                    < order[later].0
        }),
{
    let order = visual_order(names, groups);
    let count = groups.len() as int;
    let members = listed(groups, count);
    let known = listed_names(members);
    let rest = unlisted(names, known, 0);
    listed_once(names, groups, count);
    unlisted_once(names, known, 0);
    if k < members.len() {
        position_is_found(names, members[k].0, 0);
        assert(names.contains(known[k]));
        listed_come_from_groups(groups, count, k);
    } else {
        let at = k - members.len();
        assert(order[k] == (rest[at], None::<Seq<char>>));
        assert(!known.contains(names[rest[at]]));
        assert forall|g: int, m: int|
            #![trigger groups[g].1@[m]]
            0 <= g < groups.len() && 0 <= m < groups[g].1@.len() implies groups[g].1@[m]@
            != names[rest[at]] by {
            earlier_members_are_listed(groups, count, g, m);
        }
        assert forall|later: int| k < later < order.len() implies (#[trigger] order[later]).1
            is None && rest[at] < order[later].0 by {
            assert(order[later] == (rest[later - members.len()], None::<Seq<char>>));
        }
    }
}

/// The members of a Group stand behind those of the Groups before it, in the
/// order in which it lists them.
pub proof fn group_members_keep_their_order(
    names: Seq<Seq<char>>,
    groups: Seq<(String, Vec<String>)>,
    group: int,
    member: int,
)
    requires
        groups_fault(names, groups, 0) is None,
        0 <= group < groups.len(),
        0 <= member < groups[group].1@.len(),
    ensures
        ({
            let order = visual_order(names, groups);
            let place = listed(groups, group).len() + member;
            &&& place < order.len()
            &&& 0 <= order[place].0 < names.len()
            &&& names[order[place].0] == groups[group].1@[member]@
            &&& order[place].1 == Some(groups[group].0@)
        }),
{
    let count = groups.len() as int;
    members_stand_at_their_place(groups, count, group, member);
    listed_once(names, groups, count);
    let members = listed(groups, count);
    let place = listed(groups, group).len() + member;
    assert(names.contains(listed_names(members)[place]));
    position_is_found(names, members[place].0, 0);
}

proof fn members_stand_at_their_place(
    groups: Seq<(String, Vec<String>)>,
    count: int,
    group: int,
    member: int,
)
    requires
        0 <= group < count <= groups.len(),
        0 <= member < groups[group].1@.len(),
    ensures
        listed(groups, group).len() + member < listed(groups, count).len(),
        listed(groups, count)[listed(groups, group).len() + member] == (
            groups[group].1@[member]@,
            groups[group].0@,
        ),
    decreases count,
{
    if group < count - 1 {
        members_stand_at_their_place(groups, count - 1, group, member);
    }
}

} // verus!
