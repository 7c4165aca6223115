//! What is accepted: good input is never refused, and bad input is told where
//! it stands.

use vstd::prelude::*;

#[allow(unused_imports)]
use super::command::{
    arguments_reading, codes_option, command_reading, exit_codes_reading, terminal_reading,
};
#[allow(unused_imports)]
use super::env::{
    environment_reading, file_reading, files_reading, inline_entries, line_reading,
    lines_reading, Entries,
};
#[allow(unused_imports)]
use super::file::{ConfigFile, ProcessFile, ReadinessFile};
#[allow(unused_imports)]
use super::groups::{group_fault, groups_fault, listed, listed_names, members_fault};
#[allow(unused_imports)]
use super::load::project_directory;
#[allow(unused_imports)]
use super::order::placed;
#[allow(unused_imports)]
use super::paths::{
    files_stand_in_their_directory, is_plain_name, path_of, resolved, ContentView, FileFacts,
};
#[allow(unused_imports)]
use super::process::{
    dependencies_reading, input_option, kind_reading, mode_option, process_command,
    process_directory, process_liveness, process_readiness, restart_reading, spec_reading,
};
#[allow(unused_imports)]
use super::profiled::TypedProcess;
#[allow(unused_imports)]
use super::readiness::{
    checks_reading, children_reading, leaf_reading, readiness_reading, PlaceView,
};
#[allow(unused_imports)]
use super::resolve::{project_profile, project_reading, Surroundings};
#[allow(unused_imports)]
use crate::model::{CommandView, ProbeView};
#[allow(unused_imports)]
use crate::scan::{first_kept, last_kept, option_view, trimmed, trimmed_start, Blank};
#[allow(unused_imports)]
use crate::text::{decimal_text, texts};
#[allow(unused_imports)]
use crate::yaml::Tree;

verus! {

/// A Process is accepted exactly where each of its parts is.
pub proof fn processes_are_accepted_by_their_parts(
    process: ProcessFile,
    name: Seq<char>,
    base: Seq<char>,
    project: Entries,
    facts: FileFacts,
)
    ensures
        spec_reading(process, name, base, project, facts) is Ok <==> {
            &&& kind_reading(option_view(process.kind)) is Ok
            &&& process_command(process, name, base, facts) is Ok
            &&& process_directory(process, name, base, facts) is Ok
            &&& terminal_reading(mode_option(process), input_option(process)) is Ok
            &&& dependencies_reading(
                name,
                process.depends_on@,
                process.depends_on@.len() as int,
            ) is Ok
            &&& process_readiness(process, name, base, facts) is Ok
            &&& process_liveness(process, name, base, facts) is Ok
            &&& exit_codes_reading(codes_option(process.success_exit_codes)) is Ok
            &&& restart_reading(name, process.restart) is Ok
            &&& environment_reading(
                texts(process.env_files@),
                inline_entries(process.environment@),
                name,
                base,
                project,
                facts,
            ) is Ok
        },
{
}

proof fn something_is_kept(text: Seq<char>, end: int)
    requires
        0 < end <= text.len(),
        !Blank::White.cuts(text[0]),
    ensures
        0 < last_kept(text, Blank::White, end) <= end,
    decreases end,
{
    if end > 1 && Blank::White.cuts(text[end - 1]) {
        something_is_kept(text, end - 1);
    }
}

/// A shell expression that does not begin with a blank is accepted as it
/// stands.
pub proof fn shell_expressions_are_accepted(text: Seq<char>)
    requires
        text.len() > 0,
        !Blank::White.cuts(text[0]),
    ensures
        command_reading(None, Some(text)) == Ok::<CommandView, Seq<char>>(
            CommandView::Shell { text },
        ),
{
    assert(first_kept(text, Blank::White, 0) == 0);
    assert(trimmed_start(text, Blank::White) =~= text);
    something_is_kept(text, text.len() as int);
    assert(trimmed(text, Blank::White).len() > 0);
}

proof fn texts_are_arguments(items: Seq<Tree>, from: int)
    requires
        0 <= from,
        forall|i: int| 0 <= i < items.len() ==> (#[trigger] items[i]) is Text,
    ensures
        arguments_reading(items, from) is Ok,
    decreases items.len() - from,
{
    if from < items.len() {
        assert(items[from] is Text);
        texts_are_arguments(items, from + 1);
    }
}

/// A list of texts is accepted as a command, unless the program is empty.
pub proof fn lists_of_texts_are_accepted(items: Seq<Tree>)
    requires
        items.len() > 0,
        forall|i: int| 0 <= i < items.len() ==> (#[trigger] items[i]) is Text,
    ensures
        command_reading(Some(items), None) is Ok <==> items[0]->Text_0.len() > 0,
{
    assert(items[0] is Text);
    texts_are_arguments(items, 1);
}

/// Whether a block gives one check and no schedule of its own.
pub open spec fn plain_block(file: ReadinessFile) -> bool {
    &&& file.all is None
    &&& !file.any
    &&& file.startup_timeout is None
    &&& file.initial_delay is None
    &&& file.interval is None
    &&& file.timeout is None
    &&& file.success_threshold is None
    &&& file.failure_threshold is None
}

/// A block with just one check is accepted with that check: a port of a host,
/// or a text of the output.
pub proof fn plain_checks_are_accepted(
    place: PlaceView,
    file: ReadinessFile,
    base: Seq<char>,
    facts: FileFacts,
)
    requires
        plain_block(file),
        file.http is None,
        file.exec_check is None,
    ensures
        file.log is None ==> (file.tcp matches Some(tcp) ==> (tcp.host@.len() > 0 && tcp.port > 0
            ==> (readiness_reading(place, file, base, facts) matches Ok(readiness)
            && readiness.checks.len() == 1 && readiness.checks[0].probe == (ProbeView::Tcp {
            host: tcp.host@,
            port: tcp.port,
        })))),
        file.tcp is None ==> (file.log matches Some(log) ==> (log.contains@.len() > 0 ==> (
        readiness_reading(place, file, base, facts) matches Ok(readiness)
            && readiness.checks.len() == 1 && readiness.checks[0].probe == (ProbeView::Log {
            contains: log.contains@,
        })))),
{
}

proof fn good_children_are_accepted(
    place: PlaceView,
    children: Seq<ReadinessFile>,
    count: int,
    base: Seq<char>,
    facts: FileFacts,
)
    requires
        0 <= count <= children.len() <= usize::MAX,
        forall|i: int|
            0 <= i < children.len() ==> leaf_reading(
                PlaceView { child: Some((i + 1) as usize), ..place },
                #[trigger] children[i],
                base,
                facts,
            ) is Ok,
    ensures
        children_reading(place, children, count, base, facts) is Ok,
    decreases count,
{
    if count > 0 {
        good_children_are_accepted(place, children, count - 1, base, facts);
        assert(leaf_reading(
            PlaceView { child: Some(count as usize), ..place },
            children[count - 1],
            base,
            facts,
        ) is Ok);
    }
}

/// Two or more checks that are each accepted are accepted together.
pub proof fn good_checks_are_accepted_together(
    place: PlaceView,
    file: ReadinessFile,
    base: Seq<char>,
    facts: FileFacts,
)
    requires
        plain_block(ReadinessFile { all: None, ..file }),
        file.tcp is None,
        file.http is None,
        file.exec_check is None,
        file.log is None,
        file.all matches Some(children) && 2 <= children@.len() <= usize::MAX && forall|i: int|
            0 <= i < children@.len() ==> leaf_reading(
                PlaceView { child: Some((i + 1) as usize), ..place },
                #[trigger] children@[i],
                base,
                facts,
            ) is Ok,
    ensures
        checks_reading(place, file, base, facts) is Ok,
{
    let children = file.all->0@;
    good_children_are_accepted(place, children, children.len() as int, base, facts);
}

/// A file of variables is read from where it stands: relative to the base, and
/// one that cannot be read is refused.
pub proof fn files_are_read_where_they_stand(
    base: Seq<char>,
    file: Seq<char>,
    owner: Seq<char>,
    facts: FileFacts,
    entries: Entries,
)
    ensures
        files_reading(base, seq![file], 0, owner, facts, entries) == file_reading(
            facts.content_of(resolved(base, file)),
            resolved(base, file),
            owner,
            entries,
        ),
        facts.content_of(resolved(base, file)) is Unreadable ==> files_reading(
            base,
            seq![file],
            0,
            owner,
            facts,
            entries,
        ) is Err,
{
    reveal_with_fuel(files_reading, 2);
}

/// The first line that is wrong is told with its number, counted from one.
pub proof fn the_wrong_line_is_told(
    lines: Seq<Seq<char>>,
    from: int,
    path: Seq<char>,
    owner: Seq<char>,
    entries: Entries,
    at: int,
)
    requires
        0 <= from <= at < lines.len(),
        line_reading(lines[at]) is Err,
        forall|i: int| from <= i < at ==> line_reading(#[trigger] lines[i]) is Ok,
    ensures
        lines_reading(lines, from, path, owner, entries) == Err::<Entries, Seq<char>>(
            "invalid "@ + owner + " environment file '"@ + path + "' at line "@ + decimal_text(
                (at + 1) as nat,
            ) + ": "@ + line_reading(lines[at])->Err_0,
        ),
    decreases at - from,
{
    if from < at {
        assert(line_reading(lines[from]) is Ok);
        match line_reading(lines[from]) {
            Ok(Some((key, value))) => the_wrong_line_is_told(
                lines,
                from + 1,
                path,
                owner,
                placed(entries, key, value),
                at,
            ),
            _ => the_wrong_line_is_told(lines, from + 1, path, owner, entries, at),
        }
    }
}

/// No Project Profile takes the name of the base.
pub proof fn the_name_of_the_base_is_reserved(
    file: ConfigFile,
    typed: Seq<TypedProcess>,
    profile: Option<Seq<char>>,
    around: Surroundings,
    at: int,
)
    requires
        0 <= at < file.profiles@.len(),
        file.profiles@[at].0@ == "base"@,
    ensures
        project_reading(file, typed, profile, around) is Err,
{
    a_named_profile_is_found(file, 0, at);
}

proof fn a_named_profile_is_found(file: ConfigFile, from: int, at: int)
    requires
        0 <= from <= at < file.profiles@.len(),
        file.profiles@[at].0@ == "base"@,
    ensures
        project_profile(file.profiles@, "base"@, from) is Some,
    decreases at - from,
{
    if from < at {
        a_named_profile_is_found(file, from + 1, at);
    }
}

proof fn no_group_is_at_fault(
    names: Seq<Seq<char>>,
    groups: Seq<(String, Vec<String>)>,
    from: int,
    at: int,
)
    requires
        groups_fault(names, groups, from) is None,
        0 <= from <= at < groups.len(),
    ensures
        group_fault(names, groups, at) is None,
    decreases at - from,
{
    if from < at {
        no_group_is_at_fault(names, groups, from + 1, at);
    }
}

/// A Group has a member, and its name is not the heading of the ungrouped
/// Processes, with or without blanks around it.
pub proof fn groups_need_a_name_and_a_member(
    names: Seq<Seq<char>>,
    groups: Seq<(String, Vec<String>)>,
    at: int,
)
    requires
        groups_fault(names, groups, 0) is None,
        0 <= at < groups.len(),
    ensures
        groups[at].1@.len() > 0,
        trimmed(groups[at].0@, Blank::White) != "Other"@,
{
    no_group_is_at_fault(names, groups, 0, at);
}

proof fn known_members_pass(
    names: Seq<Seq<char>>,
    earlier: Seq<Seq<char>>,
    group: Seq<char>,
    members: Seq<Seq<char>>,
    from: int,
)
    requires
        0 <= from,
        (earlier + members).no_duplicates(),
        forall|i: int| 0 <= i < members.len() ==> names.contains(#[trigger] members[i]),
    ensures
        members_fault(names, earlier, group, members, from) is None,
    decreases members.len() - from,
{
    if from < members.len() {
        let all = earlier + members;
        assert(names.contains(members[from]));
        assert(all[earlier.len() + from] == members[from]);
        if earlier.contains(members[from]) {
            let i = choose|i: int| 0 <= i < earlier.len() && earlier[i] == members[from];
            assert(all[i] == members[from]);
        }
        if members.take(from).contains(members[from]) {
            let i = choose|i: int| 0 <= i < from && members.take(from)[i] == members[from];
            assert(all[earlier.len() + i] == members[from]);
        }
        known_members_pass(names, earlier, group, members, from + 1);
    }
}

proof fn listed_prefix(groups: Seq<(String, Vec<String>)>, count: int, more: int)
    requires
        0 <= count <= more <= groups.len(),
    ensures
        listed_names(listed(groups, count)).is_prefix_of(listed_names(listed(groups, more))),
    decreases more - count,
{
    if count < more {
        listed_prefix(groups, count, more - 1);
        assert(listed(groups, more - 1).is_prefix_of(listed(groups, more)));
        let a = listed_names(listed(groups, count));
        let b = listed_names(listed(groups, more - 1));
        let c = listed_names(listed(groups, more));
        assert(b =~= c.take(b.len() as int));
        assert(a =~= c.take(a.len() as int));
    }
}

proof fn sound_groups_pass(
    names: Seq<Seq<char>>,
    groups: Seq<(String, Vec<String>)>,
    from: int,
)
    requires
        0 <= from,
        sound_groups(names, groups),
    ensures
        groups_fault(names, groups, from) is None,
    decreases groups.len() - from,
{
    if from < groups.len() {
        let earlier = listed_names(listed(groups, from));
        let members = texts(groups[from].1@);
        listed_prefix(groups, from + 1, groups.len() as int);
        let whole = listed_names(listed(groups, groups.len() as int));
        assert(listed_names(listed(groups, from + 1)) =~= earlier + members);
        assert(earlier + members =~= whole.take((earlier + members).len() as int));
        assert forall|i: int, j: int|
            0 <= i < (earlier + members).len() && 0 <= j < (earlier + members).len() && i
                != j implies (earlier + members)[i] != (earlier + members)[j] by {
            assert((earlier + members)[i] == whole[i]);
            assert((earlier + members)[j] == whole[j]);
        }
        assert forall|i: int| 0 <= i < members.len() implies names.contains(
            #[trigger] members[i],
        ) by {
            assert(groups[from].1@[i]@ == members[i]);
        }
        known_members_pass(names, earlier, groups[from].0@, members, 0);
        sound_groups_pass(names, groups, from + 1);
    }
}

/// Whether every Group has members that are Processes, none listed twice, and
/// a name of its own.
pub open spec fn sound_groups(names: Seq<Seq<char>>, groups: Seq<(String, Vec<String>)>) -> bool {
    &&& listed_names(listed(groups, groups.len() as int)).no_duplicates()
    &&& forall|g: int|
        #![trigger groups[g]]
        0 <= g < groups.len() ==> groups[g].1@.len() > 0 && trimmed(groups[g].0@, Blank::White)
            != "Other"@
    &&& forall|g: int, m: int|
        #![trigger groups[g].1@[m]]
        0 <= g < groups.len() && 0 <= m < groups[g].1@.len() ==> names.contains(
            groups[g].1@[m]@,
        )
}

/// Sound Groups are accepted.
pub proof fn sound_groups_are_accepted(
    names: Seq<Seq<char>>,
    groups: Seq<(String, Vec<String>)>,
)
    requires
        sound_groups(names, groups),
    ensures
        groups_fault(names, groups, 0) is None,
{
    sound_groups_pass(names, groups, 0);
}

/// The directory of a Project is the one that its file stands in.
pub proof fn projects_stand_in_their_directory(names: Seq<Seq<char>>, file: Seq<char>)
    requires
        is_plain_name(file),
        forall|i: int| 0 <= i < names.len() ==> is_plain_name(#[trigger] names[i]),
    ensures
        project_directory(path_of(true, names.push(file))) == path_of(true, names),
{
    files_stand_in_their_directory(names, file);
}

} // verus!
