//! What a file says of a whole Project is what the resolved Project is.

use vstd::prelude::*;

#[allow(unused_imports)]
use super::env::{files_reading, Entries};
#[allow(unused_imports)]
use super::file::{ConfigFile, ProcessFile, ProjectProfileFile, SettingsFile};
#[allow(unused_imports)]
use super::groups::{groups_fault, visual_order};
#[allow(unused_imports)]
use super::layers::raw_process;
#[allow(unused_imports)]
use super::load::{
    local_beside, located, project_directory, requested, RequestView, SourcesView,
};
#[allow(unused_imports)]
use super::order::{adding_keeps_order, joined_name, ordered};
#[allow(unused_imports)]
use super::paths::{is_name, joined_path, parent_of, path_of, FileFacts};
#[allow(unused_imports)]
use super::process_laws::shells_are_as_given;
#[allow(unused_imports)]
use super::profiled::{
    fields_fault, override_fault, patch_fault, profiled_reading, variant_reading, ProfiledView,
    TypedProcess,
};
#[allow(unused_imports)]
use super::resolve::{
    entry_names, fault_message, files_of, named_sets, process_profile_names, project_profile, project_reading,
    selectable_names, selected_files, selection_reading, set_reading, with_keys, with_profiles,
    ResolvedView, Surroundings,
};
#[allow(unused_imports)]
use crate::model::ProcessView;
#[allow(unused_imports)]
use crate::project::{labelled_process, profile_label, variant_names, ProcessSet, ProjectFault};
#[allow(unused_imports)]
use crate::scan::begins;
#[allow(unused_imports)]
use crate::text::{joined, texts, word_at};
#[allow(unused_imports)]
use crate::yaml::{Tree, Yaml};

verus! {

/// A resolved Project has the name of the base, the port discovery and the
/// selected profile that are asked for, a launcher, and the base selection
/// followed by one selection for each profile, in the order of their names.
pub proof fn projects_are_as_given(
    file: ConfigFile,
    typed: Seq<TypedProcess>,
    profile: Option<Seq<char>>,
    around: Surroundings,
)
    ensures
        project_reading(file, typed, profile, around) matches Ok(project) ==> {
            &&& project.selected == profile
            &&& project.base_name == (match file.base_profile_name {
                Some(name) => name@,
                None => "base"@,
            })
            &&& project.ports <==> (file.settings matches Some(settings) && settings.port_discovery
                == Some(true))
            &&& project.sets.len() == selectable_names(file).len() + 1
            &&& project.sets[0].profile is None
            &&& forall|k: int|
                0 <= k < selectable_names(file).len() ==> (#[trigger] project.sets[k + 1]).profile
                    == Some(selectable_names(file)[k])
            &&& profile matches Some(name) ==> selectable_names(file).contains(name)
            &&& project.grouping.len() == visual_order(
                entry_names(file.processes@),
                file.groups@,
            ).len()
        },
{
    let names = selectable_names(file);
    let order = visual_order(entry_names(file.processes@), file.groups@);
    named_selections_are_in_order(file, typed, order, names, names.len() as int, around);
    if let Ok(project) = project_reading(file, typed, profile, around) {
        let named = named_sets(file, typed, order, names, names.len() as int, around)->Ok_0;
        assert forall|k: int| 0 <= k < names.len() implies (#[trigger] project.sets[k + 1]).profile
            == Some(names[k]) by {
            assert(project.sets[k + 1] == named[k]);
        }
    }
}

proof fn named_selections_are_in_order(
    file: ConfigFile,
    typed: Seq<TypedProcess>,
    order: Seq<(int, Option<Seq<char>>)>,
    names: Seq<Seq<char>>,
    count: int,
    around: Surroundings,
)
    requires
        0 <= count <= names.len(),
    ensures
        named_sets(file, typed, order, names, count, around) matches Ok(sets) ==> {
            &&& sets.len() == count
            &&& forall|k: int|
                0 <= k < count ==> (#[trigger] sets[k]).profile == Some(names[k])
                    && selection_reading(file, typed, order, Some(names[k]), around) == Ok::<
                    ProcessSet,
                    Seq<char>,
                >(sets[k])
        },
    decreases count,
{
    if count > 0 {
        named_selections_are_in_order(file, typed, order, names, count - 1, around);
    }
}

proof fn adding_adds_one(names: Seq<Seq<char>>, name: Seq<char>, other: Seq<char>)
    requires
        ordered(names),
    ensures
        ordered(joined_name(names, name)),
        joined_name(names, name).contains(other) <==> names.contains(other) || other == name,
{
    adding_keeps_order(names, name);
}

proof fn keys_are_added(
    names: Seq<Seq<char>>,
    entries: Seq<(String, Yaml)>,
    count: int,
    name: Seq<char>,
)
    requires
        ordered(names),
        0 <= count <= entries.len(),
    ensures
        ordered(with_keys(names, entries, count)),
        with_keys(names, entries, count).contains(name) <==> names.contains(name) || exists|i: int|
            0 <= i < count && (#[trigger] entries[i]).0@ == name,
    decreases count,
{
    if count > 0 {
        keys_are_added(names, entries, count - 1, name);
        adding_adds_one(with_keys(names, entries, count - 1), entries[count - 1].0@, name);
        if entries[count - 1].0@ == name {
            assert(entries[count - 1].0@ == name);
        }
    }
}

proof fn process_profiles_are_added(
    processes: Seq<(String, ProcessFile)>,
    count: int,
    name: Seq<char>,
)
    requires
        0 <= count <= processes.len(),
    ensures
        ordered(process_profile_names(processes, count)),
        process_profile_names(processes, count).contains(name) <==> exists|p: int, i: int|
            #![trigger processes[p].1.profiles@[i]]
            0 <= p < count && 0 <= i < processes[p].1.profiles@.len()
                && processes[p].1.profiles@[i].0@ == name,
    decreases count,
{
    if count > 0 {
        process_profiles_are_added(processes, count - 1, name);
        let profiles = processes[count - 1].1.profiles@;
        keys_are_added(
            process_profile_names(processes, count - 1),
            profiles,
            profiles.len() as int,
            name,
        );
        if exists|i: int| 0 <= i < profiles.len() && (#[trigger] profiles[i]).0@ == name {
            let i = choose|i: int| 0 <= i < profiles.len() && (#[trigger] profiles[i]).0@ == name;
            assert(processes[count - 1].1.profiles@[i].0@ == name);
        }
    }
}

proof fn project_profiles_are_added(
    names: Seq<Seq<char>>,
    profiles: Seq<(String, ProjectProfileFile)>,
    count: int,
    name: Seq<char>,
)
    requires
        ordered(names),
        0 <= count <= profiles.len(),
    ensures
        ordered(with_profiles(names, profiles, count)),
        with_profiles(names, profiles, count).contains(name) <==> names.contains(name)
            || exists|i: int| 0 <= i < count && (#[trigger] profiles[i]).0@ == name,
    decreases count,
{
    if count > 0 {
        project_profiles_are_added(names, profiles, count - 1, name);
        adding_adds_one(with_profiles(names, profiles, count - 1), profiles[count - 1].0@, name);
        if profiles[count - 1].0@ == name {
            assert(profiles[count - 1].0@ == name);
        }
    }
}

/// The profiles that can be selected are those of the Project and those of its
/// Processes, and no others; each stands once, in the order of the names.
pub proof fn known_profiles_can_be_selected(file: ConfigFile, name: Seq<char>)
    ensures
        ordered(selectable_names(file)),
        selectable_names(file).contains(name) <==> {
            ||| exists|i: int|
                0 <= i < file.profiles@.len() && (#[trigger] file.profiles@[i]).0@ == name
            ||| exists|p: int, i: int|
                #![trigger file.processes@[p].1.profiles@[i]]
                0 <= p < file.processes@.len() && 0 <= i < file.processes@[p].1.profiles@.len()
                    && file.processes@[p].1.profiles@[i].0@ == name
        },
{
    let count = file.processes@.len() as int;
    process_profiles_are_added(file.processes@, count, name);
    project_profiles_are_added(
        process_profile_names(file.processes@, count),
        file.profiles@,
        file.profiles@.len() as int,
        name,
    );
}

proof fn found_profile(profiles: Seq<(String, ProjectProfileFile)>, name: Seq<char>, from: int)
    requires
        0 <= from <= profiles.len(),
    ensures
        match project_profile(profiles, name, from) {
            Some(index) => from <= index < profiles.len() && profiles[index].0@ == name
                && forall|i: int| from <= i < index ==> (#[trigger] profiles[i]).0@ != name,
            None => forall|i: int| from <= i < profiles.len() ==> (#[trigger] profiles[i]).0@ != name,
        },
    decreases profiles.len() - from,
{
    if from < profiles.len() && profiles[from].0@ != name {
        found_profile(profiles, name, from + 1);
    }
}

/// The environment files of a Project Profile replace those of the Project; a
/// profile without any leaves them.
pub proof fn profile_files_replace_the_projects(file: ConfigFile, at: int)
    requires
        0 <= at < file.profiles@.len(),
        forall|i: int, j: int|
            0 <= i < j < file.profiles@.len() ==> (#[trigger] file.profiles@[i]).0@ != (
            #[trigger] file.profiles@[j]).0@,
    ensures
        selected_files(file, file.profiles@[at].0@) == (match file.profiles@[at].1.env_files {
            Some(files) => texts(files@),
            None => match file.env_files {
                Some(files) => texts(files@),
                None => Seq::empty(),
            },
        }),
{
    let name = file.profiles@[at].0@;
    found_profile(file.profiles@, name, 0);
    let index = project_profile(file.profiles@, name, 0)->0;
    if index < at {
        assert(file.profiles@[index].0@ != file.profiles@[at].0@);
    }
}

/// A name that only Processes use keeps the environment files of the Project.
pub proof fn process_profiles_keep_the_projects_files(file: ConfigFile, name: Seq<char>)
    requires
        forall|i: int| 0 <= i < file.profiles@.len() ==> (#[trigger] file.profiles@[i]).0@ != name,
    ensures
        selected_files(file, name) == files_of(file.env_files),
{
    found_profile(file.profiles@, name, 0);
}

proof fn read_sets_hold_their_processes(
    typed: Seq<TypedProcess>,
    order: Seq<(int, Option<Seq<char>>)>,
    count: int,
    selection: Option<Seq<char>>,
    changes: bool,
    environment: Entries,
    around: Surroundings,
    at: int,
)
    requires
        0 <= at < count <= order.len(),
    ensures
        set_reading(typed, order, count, selection, changes, environment, around) matches Ok(set)
            ==> {
            let process = typed[order[at].0];
            &&& set.0.len() == count && set.1.len() == count
            &&& profiled_reading(
                process,
                raw_process(around.document, process.name@),
                around.base,
                environment,
                around.facts,
            ) matches Ok(profiled) && set.0[at] == labelled_process(
                profiled.base,
                profiled.profiles,
                profile_label(profiled.profiles, profiled.profile_override, selection),
            )
        },
    decreases count,
{
    if at < count - 1 {
        read_sets_hold_their_processes(
            typed,
            order,
            count - 1,
            selection,
            changes,
            environment,
            around,
            at,
        );
    } else if count > 1 {
        read_sets_hold_their_processes(
            typed,
            order,
            count - 1,
            selection,
            changes,
            environment,
            around,
            0,
        );
    }
}

/// A selection holds each Process at its place in the visual order, built with
/// the environment files of that selection, and as the selection or its own
/// fixed profile asks.
pub proof fn selections_hold_their_processes(
    file: ConfigFile,
    typed: Seq<TypedProcess>,
    order: Seq<(int, Option<Seq<char>>)>,
    selection: Option<Seq<char>>,
    around: Surroundings,
    at: int,
)
    requires
        0 <= at < order.len(),
    ensures
        selection_reading(file, typed, order, selection, around) matches Ok(set) ==> {
            let process = typed[order[at].0];
            let files = match selection {
                Some(name) => selected_files(file, name),
                None => files_of(file.env_files),
            };
            &&& set.profile == selection
            &&& set.processes.len() == order.len()
            &&& files_reading(
                around.base,
                files,
                0,
                if selection is Some {
                    "Project Profile '"@ + selection->0 + "'"@
                } else {
                    "Project"@
                },
                around.facts,
                Seq::empty(),
            ) matches Ok(environment) && profiled_reading(
                process,
                raw_process(around.document, process.name@),
                around.base,
                environment,
                around.facts,
            ) matches Ok(profiled) && set.processes[at] == labelled_process(
                profiled.base,
                profiled.profiles,
                profile_label(profiled.profiles, profiled.profile_override, selection),
            )
        },
{
    let files = match selection {
        Some(name) => selected_files(file, name),
        None => files_of(file.env_files),
    };
    let owner = match selection {
        Some(name) => "Project Profile '"@ + name + "'"@,
        None => "Project"@,
    };
    if let Ok(environment) = files_reading(
        around.base,
        files,
        0,
        owner,
        around.facts,
        Seq::empty(),
    ) {
        read_sets_hold_their_processes(
            typed,
            order,
            order.len() as int,
            selection,
            super::resolve::changes_environment(file, selection),
            environment,
            around,
            at,
        );
    }
}

/// Whether a Process Profile may change a field.
pub open spec fn may_change(field: Seq<char>) -> bool {
    ||| field == "command"@
    ||| field == "shell"@
    ||| field == "cwd"@
    ||| field == "env_files"@
    ||| field == "environment"@
    ||| field == "enabled"@
    ||| field == "depends_on"@
}

proof fn fields_are_checked(
    name: Seq<char>,
    profile: Seq<char>,
    entries: Seq<(Tree, Tree)>,
    from: int,
)
    requires
        0 <= from <= entries.len(),
    ensures
        fields_fault(name, profile, entries, from) is None <==> forall|i: int|
            from <= i < entries.len() ==> ((#[trigger] entries[i]).0.as_text() matches Some(field)
                && may_change(field)),
    decreases entries.len() - from,
{
    if from < entries.len() {
        fields_are_checked(name, profile, entries, from + 1);
    }
}

/// An accepted Process Profile is not named `base` and changes only the fields
/// that a profile may change.
pub proof fn profiles_change_only_their_fields(
    name: Seq<char>,
    profile: Seq<char>,
    patch: Tree,
    typed: Result<ProcessFile, String>,
    base: Seq<char>,
    project: Entries,
    facts: FileFacts,
)
    requires
        variant_reading(name, profile, patch, typed, base, project, facts) is Ok,
    ensures
        profile != "base"@,
        patch.as_mapping() matches Some(entries) && forall|i: int|
            0 <= i < entries.len() ==> ((#[trigger] entries[i]).0.as_text() matches Some(field)
                && may_change(field)),
{
    if let Some(entries) = patch.as_mapping() {
        fields_are_checked(name, profile, entries, 0);
    }
}

/// A profile that a Process fixes is one of its own, or `base`.
pub proof fn fixed_profiles_are_known(
    typed: TypedProcess,
    raw: Tree,
    base: Seq<char>,
    project: Entries,
    facts: FileFacts,
)
    ensures
        profiled_reading(typed, raw, base, project, facts) matches Ok(process) ==> (
        process.profile_override matches Some(name) ==> name == "base"@ || exists|i: int|
            0 <= i < process.profiles.len() && (#[trigger] process.profiles[i]).0 == name),
{
    reveal(profiled_reading);
    if let Ok(process) = profiled_reading(typed, raw, base, project, facts) {
        if let Some(name) = process.profile_override {
            if name != "base"@ {
                let all = variant_names(process.profiles);
                let i = choose|i: int| 0 <= i < all.len() && all[i] == name;
                assert(process.profiles[i].0 == name);
            }
        }
    }
}

/// A path that is given is used as it is asked for, without a local override;
/// without a path the Project is discovered, and a local override beside it is
/// used exactly where there is one.
pub proof fn requests_find_their_files(
    path: Option<Seq<char>>,
    profile: Option<Seq<char>>,
    current_dir: Seq<char>,
    facts: FileFacts,
)
    ensures
        located(requested(path, profile), current_dir, facts) matches Ok(sources) ==> {
            &&& sources.profile == profile
            &&& path is Some ==> sources.local is None
            &&& path is None ==> sources.local == local_beside(sources.base, facts)
            &&& path is None ==> (sources.local matches Some(local) ==> facts.known_file(local))
        },
        path is Some ==> located(requested(path, profile), current_dir, facts) is Ok,
{
}

/// What a Project is refused for is told with the names it concerns: first the
/// Process, and then what it names or uses.
pub proof fn faults_are_told_with_their_names(
    process: Seq<char>,
    dependency: Seq<char>,
    condition: Seq<char>,
)
    ensures
        begins(
            fault_message(ProjectFault::UnknownDependency { process, dependency }),
            "Process '"@ + process + "': dependency '"@ + dependency + "'"@,
        ),
        begins(
            fault_message(ProjectFault::InvalidCondition { process, dependency, condition }),
            "Process '"@ + process + "': dependency '"@ + dependency + "' cannot use condition '"@
                + condition + "'"@,
        ),
        begins(
            fault_message(ProjectFault::ReadinessOnOneShot { process }),
            "Process '"@ + process + "': readiness"@,
        ),
        begins(
            fault_message(ProjectFault::LivenessOnOneShot { process }),
            "Process '"@ + process + "': liveness"@,
        ),
        fault_message(ProjectFault::DependencyCycle(seq![process, dependency, process]))
            == "dependency cycle: "@ + (process + " -> "@ + dependency + " -> "@ + process),
{
    reveal_strlit("' does not match any configured Process");
    reveal_strlit("'");
    reveal_strlit("': readiness");
    reveal_strlit("': liveness");
    reveal_strlit(
        "': readiness is valid only on Services; a One-shot completes instead of becoming ready",
    );
    reveal_strlit(
        "': liveness is valid only on Services; a One-shot cannot have ongoing health checks",
    );
    reveal_strlit(
        "': 'exited' and 'completed_successfully' are valid only when the dependency Process is a One-shot, and 'ready' only when it is a Service",
    );
    let unknown = fault_message(ProjectFault::UnknownDependency { process, dependency });
    let start = "Process '"@ + process + "': dependency '"@ + dependency + "'"@;
    assert(unknown.subrange(0, start.len() as int) =~= start);
    let invalid = fault_message(
        ProjectFault::InvalidCondition { process, dependency, condition },
    );
    let used = "Process '"@ + process + "': dependency '"@ + dependency
        + "' cannot use condition '"@ + condition + "'"@;
    assert(invalid.subrange(0, used.len() as int) =~= used);
    let ready = fault_message(ProjectFault::ReadinessOnOneShot { process });
    let named = "Process '"@ + process + "': readiness"@;
    assert(ready.subrange(0, named.len() as int) =~= named);
    let live = fault_message(ProjectFault::LivenessOnOneShot { process });
    let named_live = "Process '"@ + process + "': liveness"@;
    assert(live.subrange(0, named_live.len() as int) =~= named_live);
    reveal_with_fuel(joined, 4);
    let path = seq![process, dependency, process];
    assert(path.drop_last() =~= seq![process, dependency]);
    assert(path.drop_last().drop_last() =~= seq![process]);
}

proof fn labels_follow_the_environment(
    typed: Seq<TypedProcess>,
    order: Seq<(int, Option<Seq<char>>)>,
    count: int,
    selection: Option<Seq<char>>,
    environment: Entries,
    around: Surroundings,
    at: int,
)
    requires
        0 <= at < count <= order.len(),
    ensures
        set_reading(typed, order, count, selection, true, environment, around) matches Ok(set)
            ==> set.1.len() == count && set.1[at] == selection,
    decreases count,
{
    if count > 1 {
        labels_follow_the_environment(
            typed,
            order,
            count - 1,
            selection,
            environment,
            around,
            if at < count - 1 {
                at
            } else {
                0
            },
        );
    } else {
        assert(set_reading(typed, order, 0, selection, true, environment, around) == Ok::<
            (Seq<ProcessView>, Seq<Option<Seq<char>>>),
            Seq<char>,
        >((Seq::empty(), Seq::empty())));
    }
}

/// Under a Project Profile that brings files of its own, every Process runs
/// under that profile, for each of them takes those files.
pub proof fn profile_files_label_every_process(
    file: ConfigFile,
    typed: Seq<TypedProcess>,
    order: Seq<(int, Option<Seq<char>>)>,
    name: Seq<char>,
    around: Surroundings,
    profile: int,
    at: int,
)
    requires
        0 <= at < order.len(),
        project_profile(file.profiles@, name, 0) == Some(profile),
        file.profiles@[profile].1.env_files is Some,
    ensures
        selection_reading(file, typed, order, Some(name), around) matches Ok(set)
            ==> set.labels.len() == order.len() && set.labels[at] == Some(name),
{
    let files = selected_files(file, name);
    if let Ok(environment) = files_reading(
        around.base,
        files,
        0,
        "Project Profile '"@ + name + "'"@,
        around.facts,
        Seq::empty(),
    ) {
        labels_follow_the_environment(
            typed,
            order,
            order.len() as int,
            Some(name),
            environment,
            around,
            at,
        );
    }
}

} // verus!
