//! One typed configuration becomes one validated Project.

use vstd::prelude::*;

use super::diagnostics::with_source;
use super::env::load_files;
use super::error::ConfigError;
use super::file::{ConfigFile, ProcessFile, ProjectProfileFile};
use super::groups::{order_processes, OrderedProcess};
use super::layers::{process_entry, Document};
use super::order::add_name;
use super::paths::{has_text, FileFacts};
use super::process::build_shell;
use super::profiled::{build_profiled_process, ProfiledProcess, TypedProcess};
use crate::model::ProcessSpec;
use crate::project::{find_variant, EffectiveProject, ProjectError, ResolvedProfile};
use crate::text::{concat2, concat3, concat4, concat5, concat7, join, same_text};
use crate::yaml::Yaml;

#[allow(unused_imports)]
use super::diagnostics::sourced;
#[allow(unused_imports)]
use super::env::{files_reading, Entries};
#[allow(unused_imports)]
use super::groups::{groups_fault, order_view, visual_order};
#[allow(unused_imports)]
use super::layers::raw_process;
#[allow(unused_imports)]
use super::order::{adding_keeps_order, joined_name, ordered, ordered_texts_are_distinct};
#[allow(unused_imports)]
use super::process::shell_reading;
#[allow(unused_imports)]
use super::profiled::{profiled_reading, variants_reading};
#[allow(unused_imports)]
use crate::model::{process_views, ProcessView, ShellView};
#[allow(unused_imports)]
use crate::project::{
    fault_of, labelled_process, names, optional_texts, profile_label, profile_sets, profiles_fault,
    project_fault, selectable, variant_names, ProcessSet, ProjectFault,
};
#[allow(unused_imports)]
use crate::scan::option_view;
#[allow(unused_imports)]
use crate::text::{joined, pairs, texts};
#[allow(unused_imports)]
use crate::yaml::Tree;

verus! {

/// A Project fault in words.
pub open spec fn fault_message(fault: ProjectFault) -> Seq<char>
    decreases fault,
{
    match fault {
        ProjectFault::DuplicateName(name) => "duplicate Process name '"@ + name + "'"@,
        ProjectFault::UnknownDependency { process, dependency } => "Process '"@ + process
            + "': dependency '"@ + dependency + "' does not match any configured Process"@,
        ProjectFault::InvalidCondition { process, dependency, condition } => "Process '"@ + process
            + "': dependency '"@ + dependency + "' cannot use condition '"@ + condition
            + "': 'exited' and 'completed_successfully' are valid only when the dependency Process is a One-shot, and 'ready' only when it is a Service"@,
        ProjectFault::ReadinessOnOneShot { process } => "Process '"@ + process
            + "': readiness is valid only on Services; a One-shot completes instead of becoming ready"@,
        ProjectFault::LivenessOnOneShot { process } => "Process '"@ + process
            + "': liveness is valid only on Services; a One-shot cannot have ongoing health checks"@,
        ProjectFault::InvalidRestartPolicy { process, policy } => "Process '"@ + process
            + "': restart.policy '"@ + policy + "' is valid only for Services"@,
        ProjectFault::DependencyCycle(path) => "dependency cycle: "@ + joined(path, " -> "@),
        ProjectFault::InvalidProcessProfileGraph { profile, source } => "Process Profile '"@
            + profile + "' produces an invalid Project: "@ + fault_message(*source),
    }
}

/// A Project error in words.
pub fn format_project_error(error: &ProjectError) -> (r: String)
    ensures
        r@ == fault_message(fault_of(*error)),
    decreases error,
{
    match error {
        ProjectError::DuplicateName(name) => concat3(
            "duplicate Process name '",
            name.as_str(),
            "'",
        ),
        ProjectError::UnknownDependency { process, dependency } => concat5(
            "Process '",
            process.as_str(),
            "': dependency '",
            dependency.as_str(),
            "' does not match any configured Process",
        ),
        ProjectError::InvalidCondition { process, dependency, condition } => concat7(
            "Process '",
            process.as_str(),
            "': dependency '",
            dependency.as_str(),
            "' cannot use condition '",
            condition.as_str(),
            "': 'exited' and 'completed_successfully' are valid only when the dependency Process is a One-shot, and 'ready' only when it is a Service",
        ),
        ProjectError::ReadinessOnOneShot { process } => concat3(
            "Process '",
            process.as_str(),
            "': readiness is valid only on Services; a One-shot completes instead of becoming ready",
        ),
        ProjectError::LivenessOnOneShot { process } => concat3(
            "Process '",
            process.as_str(),
            "': liveness is valid only on Services; a One-shot cannot have ongoing health checks",
        ),
        ProjectError::InvalidRestartPolicy { process, policy } => concat5(
            "Process '",
            process.as_str(),
            "': restart.policy '",
            policy.as_str(),
            "' is valid only for Services",
        ),
        ProjectError::DependencyCycle(path) => {
            let shown = join(path, " -> ");
            concat2("dependency cycle: ", shown.as_str())
        },
        ProjectError::InvalidProcessProfileGraph { profile, source } => {
            let detail = format_project_error(source);
            concat4(
                "Process Profile '",
                profile.as_str(),
                "' produces an invalid Project: ",
                detail.as_str(),
            )
        },
    }
}

/// An optional name.
pub open spec fn borrowed(name: Option<&str>) -> Option<Seq<char>> {
    match name {
        Some(name) => Some(name@),
        None => None,
    }
}

/// Names with those of the first `count` entries.
pub open spec fn with_keys(names: Seq<Seq<char>>, entries: Seq<(String, Yaml)>, count: int) -> Seq<
    Seq<char>,
>
    decreases count,
{
    if count <= 0 || count > entries.len() {
        names
    } else {
        joined_name(with_keys(names, entries, count - 1), entries[count - 1].0@)
    }
}

/// The Process Profile names of the first `count` Processes.
pub open spec fn process_profile_names(processes: Seq<(String, ProcessFile)>, count: int) -> Seq<
    Seq<char>,
>
    decreases count,
{
    if count <= 0 || count > processes.len() {
        Seq::empty()
    } else {
        let profiles = processes[count - 1].1.profiles@;
        with_keys(
            process_profile_names(processes, count - 1),
            profiles,
            profiles.len() as int,
        )
    }
}

/// Names with those of the first `count` Project Profiles.
pub open spec fn with_profiles(
    names: Seq<Seq<char>>,
    profiles: Seq<(String, ProjectProfileFile)>,
    count: int,
) -> Seq<Seq<char>>
    decreases count,
{
    if count <= 0 || count > profiles.len() {
        names
    } else {
        joined_name(with_profiles(names, profiles, count - 1), profiles[count - 1].0@)
    }
}

/// The profiles that a Project can select, in the order of their names.
pub open spec fn selectable_names(file: ConfigFile) -> Seq<Seq<char>> {
    with_profiles(
        process_profile_names(file.processes@, file.processes@.len() as int),
        file.profiles@,
        file.profiles@.len() as int,
    )
}

/// The position of a Project Profile, from `from` on.
pub open spec fn project_profile(
    profiles: Seq<(String, ProjectProfileFile)>,
    name: Seq<char>,
    from: int,
) -> Option<int>
    decreases profiles.len() - from,
{
    if from < 0 || from >= profiles.len() {
        None
    } else if profiles[from].0@ == name {
        Some(from)
    } else {
        project_profile(profiles, name, from + 1)
    }
}

/// Whether a selection brings environment files of its own.
pub open spec fn changes_environment(file: ConfigFile, selection: Option<Seq<char>>) -> bool {
    match selection {
        None => false,
        Some(name) => match project_profile(file.profiles@, name, 0) {
            Some(index) => file.profiles@[index].1.env_files is Some,
            None => false,
        },
    }
}

/// Optional files, and none without them.
pub open spec fn files_of(files: Option<Vec<String>>) -> Seq<Seq<char>> {
    match files {
        Some(files) => texts(files@),
        None => Seq::empty(),
    }
}

/// The environment files of a selection: its own, or those of the Project.
pub open spec fn selected_files(file: ConfigFile, name: Seq<char>) -> Seq<Seq<char>> {
    match project_profile(file.profiles@, name, 0) {
        Some(index) => match file.profiles@[index].1.env_files {
            Some(files) => texts(files@),
            None => files_of(file.env_files),
        },
        None => files_of(file.env_files),
    }
}

/// The names of the Processes, in the order of the file.
pub open spec fn entry_names(processes: Seq<(String, ProcessFile)>) -> Seq<Seq<char>> {
    processes.map_values(|entry: (String, ProcessFile)| entry.0@)
}

/// What resolving takes of its surroundings.
pub struct Surroundings {
    pub document: Tree,
    pub base: Seq<char>,
    pub facts: FileFacts,
}

/// The Processes and labels of the first `count` Processes in visual order,
/// under a selection.
pub open spec fn set_reading(
    typed: Seq<TypedProcess>,
    order: Seq<(int, Option<Seq<char>>)>,
    count: int,
    selection: Option<Seq<char>>,
    changes: bool,
    environment: Entries,
    around: Surroundings,
) -> Result<(Seq<ProcessView>, Seq<Option<Seq<char>>>), Seq<char>>
    decreases count,
{
    if count <= 0 || count > order.len() {
        Ok((Seq::empty(), Seq::empty()))
    } else {
        let process = typed[order[count - 1].0];
        match set_reading(typed, order, count - 1, selection, changes, environment, around) {
            Err(message) => Err(message),
            Ok((processes, labels)) => match profiled_reading(
                process,
                raw_process(around.document, process.name@),
                around.base,
                environment,
                around.facts,
            ) {
                Err(message) => Err(message),
                Ok(profiled) => {
                    let label = profile_label(
                        profiled.profiles,
                        profiled.profile_override,
                        selection,
                    );
                    Ok(
                        (
                            processes.push(
                                labelled_process(profiled.base, profiled.profiles, label),
                            ),
                            labels.push(
                                if changes {
                                    selection
                                } else {
                                    label
                                },
                            ),
                        ),
                    )
                },
            },
        }
    }
}

/// The set of Processes of one selection, with its environment.
pub open spec fn selection_reading(
    file: ConfigFile,
    typed: Seq<TypedProcess>,
    order: Seq<(int, Option<Seq<char>>)>,
    selection: Option<Seq<char>>,
    around: Surroundings,
) -> Result<ProcessSet, Seq<char>> {
    let files = match selection {
        Some(name) => selected_files(file, name),
        None => files_of(file.env_files),
    };
    let owner = match selection {
        Some(name) => "Project Profile '"@ + name + "'"@,
        None => "Project"@,
    };
    match files_reading(around.base, files, 0, owner, around.facts, Seq::empty()) {
        Err(message) => Err(message),
        Ok(environment) => match set_reading(
            typed,
            order,
            order.len() as int,
            selection,
            changes_environment(file, selection),
            environment,
            around,
        ) {
            Err(message) => Err(message),
            Ok((processes, labels)) => Ok(ProcessSet { profile: selection, processes, labels }),
        },
    }
}

/// The sets of the first `count` selectable profiles.
pub open spec fn named_sets(
    file: ConfigFile,
    typed: Seq<TypedProcess>,
    order: Seq<(int, Option<Seq<char>>)>,
    profiles: Seq<Seq<char>>,
    count: int,
    around: Surroundings,
) -> Result<Seq<ProcessSet>, Seq<char>>
    decreases count,
{
    if count <= 0 || count > profiles.len() {
        Ok(Seq::empty())
    } else {
        match named_sets(file, typed, order, profiles, count - 1, around) {
            Err(message) => Err(message),
            Ok(before) => match selection_reading(
                file,
                typed,
                order,
                Some(profiles[count - 1]),
                around,
            ) {
                Err(message) => Err(message),
                Ok(set) => Ok(before.push(set)),
            },
        }
    }
}

/// Everything that a resolved Project holds.
pub struct ResolvedView {
    pub sets: Seq<ProcessSet>,
    pub selected: Option<Seq<char>>,
    pub shell: ShellView,
    pub grouping: Seq<Option<Seq<char>>>,
    pub base_name: Seq<char>,
    pub ports: bool,
}

/// Why the profiles of a file cannot be used with a selection.
pub open spec fn profiles_refused(file: ConfigFile, profile: Option<Seq<char>>) -> Option<Seq<char>> {
    if project_profile(file.profiles@, "base"@, 0) is Some {
        Some("Project Profile name 'base' is reserved for the base Project"@)
    } else {
        match profile {
            Some(name) => if selectable_names(file).contains(name) {
                None
            } else {
                Some("unknown Process Profile '"@ + name + "'"@)
            },
            None => None,
        }
    }
}

/// Whether port discovery is on.
pub open spec fn ports_of(file: ConfigFile) -> bool {
    match file.settings {
        Some(settings) => settings.port_discovery == Some(true),
        None => false,
    }
}

/// The visible name of the base selection.
pub open spec fn base_name_of(file: ConfigFile) -> Seq<char> {
    match file.base_profile_name {
        Some(name) => name@,
        None => "base"@,
    }
}

/// The Project of a typed configuration, before its layer is named in a
/// failure.
pub open spec fn project_reading(
    file: ConfigFile,
    typed: Seq<TypedProcess>,
    profile: Option<Seq<char>>,
    around: Surroundings,
) -> Result<ResolvedView, Seq<char>> {
    let process_names = entry_names(file.processes@);
    let order = visual_order(process_names, file.groups@);
    let profiles = selectable_names(file);
    let shell = shell_reading(file.settings);
    let grouped = groups_fault(process_names, file.groups@, 0);
    let refused = profiles_refused(file, profile);
    let base = selection_reading(file, typed, order, None, around);
    let named = named_sets(file, typed, order, profiles, profiles.len() as int, around);
    if shell is Err {
        Err(shell->Err_0)
    } else if grouped is Some {
        Err(grouped->0)
    } else if refused is Some {
        Err(refused->0)
    } else if base is Err {
        Err(base->Err_0)
    } else if named is Err {
        Err(named->Err_0)
    } else {
        match project_fault((base->Ok_0).processes) {
            Some(fault) => Err(fault_message(fault)),
            None => match profiles_fault(named->Ok_0, 0) {
                Some(fault) => Err(fault_message(fault)),
                None => Ok(
                    ResolvedView {
                        sets: seq![base->Ok_0] + named->Ok_0,
                        selected: profile,
                        shell: shell->Ok_0,
                        grouping: order.map_values(
                            |entry: (int, Option<Seq<char>>)| entry.1,
                        ),
                        base_name: base_name_of(file),
                        ports: ports_of(file),
                    },
                ),
            },
        }
    }
}

/// A Project as everything that it holds.
pub open spec fn project_view(project: EffectiveProject) -> ResolvedView {
    ResolvedView {
        sets: project.sets(),
        selected: project.current().profile,
        shell: project.launcher(),
        grouping: project.grouping(),
        base_name: project.base_name(),
        ports: project.discovers_ports(),
    }
}

fn process_names(processes: &Vec<(String, ProcessFile)>) -> (r: Vec<String>)
    ensures
        texts(r@) == entry_names(processes@),
        r.len() == processes.len(),
{
    let mut found: Vec<String> = Vec::new();
    let mut index: usize = 0;
    while index < processes.len()
        invariant
            index <= processes.len(),
            found.len() == index,
            texts(found@) == entry_names(processes@).take(index as int),
        decreases processes.len() - index,
    {
        found.push(processes[index].0.clone());
        proof {
            assert(texts(found@) =~= entry_names(processes@).take(index + 1));
        }
        index = index + 1;
    }
    proof {
        assert(entry_names(processes@).take(index as int) =~= entry_names(processes@));
    }
    found
}

fn add_keys(names: &mut Vec<String>, entries: &Vec<(String, Yaml)>)
    requires
        ordered(texts(old(names)@)),
    ensures
        texts(final(names)@) == with_keys(
            texts(old(names)@),
            entries@,
            entries@.len() as int,
        ),
        ordered(texts(final(names)@)),
{
    let ghost start = texts(names@);
    let mut index: usize = 0;
    while index < entries.len()
        invariant
            index <= entries.len(),
            texts(names@) == with_keys(start, entries@, index as int),
            ordered(texts(names@)),
        decreases entries.len() - index,
    {
        proof {
            adding_keeps_order(texts(names@), entries@[index as int].0@);
        }
        add_name(names, entries[index].0.as_str());
        index = index + 1;
    }
}

/// The profiles that a Project can select, in the order of their names.
pub fn profile_names(file: &ConfigFile) -> (r: Vec<String>)
    ensures
        texts(r@) == selectable_names(*file),
        ordered(texts(r@)),
{
    let mut found: Vec<String> = Vec::new();
    let mut index: usize = 0;
    proof {
        assert(texts(found@) =~= Seq::<Seq<char>>::empty());
    }
    while index < file.processes.len()
        invariant
            index <= file.processes.len(),
            texts(found@) == process_profile_names(file.processes@, index as int),
            ordered(texts(found@)),
        decreases file.processes.len() - index,
    {
        add_keys(&mut found, &file.processes[index].1.profiles);
        index = index + 1;
    }
    let ghost before = texts(found@);
    let mut at: usize = 0;
    while at < file.profiles.len()
        invariant
            at <= file.profiles.len(),
            texts(found@) == with_profiles(before, file.profiles@, at as int),
            ordered(texts(found@)),
        decreases file.profiles.len() - at,
    {
        proof {
            adding_keeps_order(texts(found@), file.profiles@[at as int].0@);
        }
        add_name(&mut found, file.profiles[at].0.as_str());
        at = at + 1;
    }
    found
}

fn find_project_profile(profiles: &Vec<(String, ProjectProfileFile)>, name: &str) -> (r: Option<
    usize,
>)
    ensures
        match r {
            Some(index) => index < profiles.len() && project_profile(profiles@, name@, 0) == Some(
                index as int,
            ),
            None => project_profile(profiles@, name@, 0) is None,
        },
{
    let mut index: usize = 0;
    while index < profiles.len()
        invariant
            index <= profiles.len(),
            project_profile(profiles@, name@, 0) == project_profile(
                profiles@,
                name@,
                index as int,
            ),
        decreases profiles.len() - index,
    {
        if same_text(profiles[index].0.as_str(), name) {
            return Some(index);
        }
        index = index + 1;
    }
    None
}

fn label_of(profiled: &ProfiledProcess, selection: Option<&str>) -> (r: Option<String>)
    ensures
        option_view(r) == profile_label(
            profiled@.profiles,
            profiled@.profile_override,
            borrowed(selection),
        ),
{
    match &profiled.profile_override {
        Some(name) => if same_text(name.as_str(), "base") {
            None
        } else {
            Some(name.clone())
        },
        None => match selection {
            Some(name) => match find_variant(&profiled.profiles, name) {
                Some(_) => Some(name.to_owned()),
                None => None,
            },
            None => None,
        },
    }
}

fn process_of(profiled: &ProfiledProcess, label: &Option<String>) -> (r: ProcessSpec)
    ensures
        r@ == labelled_process(profiled@.base, profiled@.profiles, option_view(*label)),
{
    match label {
        Some(name) => match find_variant(&profiled.profiles, name.as_str()) {
            Some(index) => profiled.profiles[index].1.duplicate(),
            None => profiled.base.duplicate(),
        },
        None => profiled.base.duplicate(),
    }
}

/// Every variant of a Process has its name.
proof fn variants_keep_the_name(
    name: Seq<char>,
    profiles: Seq<(String, Yaml)>,
    patched: Seq<Result<ProcessFile, String>>,
    count: int,
    base: Seq<char>,
    project: Entries,
    facts: FileFacts,
)
    ensures
        variants_reading(name, profiles, patched, count, base, project, facts) matches Ok(variants)
            ==> forall|i: int|
            0 <= i < variants.len() ==> (#[trigger] variants[i]).1.name == name,
    decreases count,
{
    if 0 < count <= profiles.len() {
        variants_keep_the_name(name, profiles, patched, count - 1, base, project, facts);
    }
}

/// Whatever its profile, a Process keeps its name.
proof fn label_keeps_the_name(
    typed: TypedProcess,
    raw: Tree,
    base: Seq<char>,
    project: Entries,
    facts: FileFacts,
    label: Option<Seq<char>>,
)
    ensures
        profiled_reading(typed, raw, base, project, facts) matches Ok(profiled)
            ==> labelled_process(profiled.base, profiled.profiles, label).name == typed.name@,
{
    reveal(profiled_reading);
    if let Ok(entry) = typed.entry {
        variants_keep_the_name(
            typed.name@,
            entry.profiles@,
            typed.patched@,
            entry.profiles@.len() as int,
            base,
            project,
            facts,
        );
        if let Ok(profiled) = profiled_reading(typed, raw, base, project, facts) {
            if let Some(name) = label {
                variant_names(profiled.profiles).index_of_first_ensures(name);
            }
        }
    }
}

/// The names that visual order gives the first `count` Processes.
pub open spec fn ordered_names(
    typed: Seq<TypedProcess>,
    order: Seq<(int, Option<Seq<char>>)>,
    count: int,
) -> Seq<Seq<char>> {
    Seq::new(count as nat, |i: int| typed[order[i].0].name@)
}

/// Every selection holds the Processes of the file in visual order.
pub proof fn selections_follow_visual_order(
    typed: Seq<TypedProcess>,
    order: Seq<(int, Option<Seq<char>>)>,
    count: int,
    selection: Option<Seq<char>>,
    changes: bool,
    environment: Entries,
    around: Surroundings,
)
    requires
        0 <= count <= order.len(),
    ensures
        set_reading(typed, order, count, selection, changes, environment, around) matches Ok(set)
            ==> {
            &&& names(set.0) == ordered_names(typed, order, count)
            &&& set.1.len() == count
            &&& set.0.len() == count
        },
    decreases count,
{
    if count > 0 {
        selections_follow_visual_order(
            typed,
            order,
            count - 1,
            selection,
            changes,
            environment,
            around,
        );
        let process = typed[order[count - 1].0];
        let raw = raw_process(around.document, process.name@);
        if let Ok(profiled) = profiled_reading(
            process,
            raw,
            around.base,
            environment,
            around.facts,
        ) {
            let label = profile_label(profiled.profiles, profiled.profile_override, selection);
            label_keeps_the_name(process, raw, around.base, environment, around.facts, label);
            if let Ok(before) = set_reading(
                typed,
                order,
                count - 1,
                selection,
                changes,
                environment,
                around,
            ) {
                let next = labelled_process(profiled.base, profiled.profiles, label);
                assert(names(before.0.push(next)) =~= names(before.0).push(next.name));
                assert(ordered_names(typed, order, count) =~= ordered_names(
                    typed,
                    order,
                    count - 1,
                ).push(process.name@));
            }
        }
    } else {
        assert(names(Seq::<ProcessView>::empty()) =~= ordered_names(typed, order, 0));
    }
}

/// One selection's Processes with their labels.
struct ResolvedSet {
    processes: Vec<ProcessSpec>,
    labels: Vec<Option<String>>,
}

fn resolve_set(
    document: &Yaml,
    typed: &Vec<TypedProcess>,
    order: &Vec<OrderedProcess>,
    selection: Option<&str>,
    changes: bool,
    environment: &Vec<(String, String)>,
    base_dir: &str,
    facts: &FileFacts,
) -> (r: Result<ResolvedSet, ConfigError>)
    requires
        forall|i: int| 0 <= i < typed@.len() ==> (#[trigger] typed@[i]).wf(),
        forall|i: int| 0 <= i < order@.len() ==> (#[trigger] order@[i]).index < typed@.len(),
    ensures
        (match r {
            Ok(set) => Ok((process_views(set.processes@), optional_texts(set.labels@))),
            Err(error) => Err(error.message@),
        }) == set_reading(
            typed@,
            order_view(order@),
            order@.len() as int,
            borrowed(selection),
            changes,
            pairs(environment@),
            (Surroundings { document: document@, base: base_dir@, facts: *facts }),
        ),
{
    let ghost around = Surroundings { document: document@, base: base_dir@, facts: *facts };
    let ghost view = order_view(order@);
    let ghost chosen = borrowed(selection);
    let mut processes: Vec<ProcessSpec> = Vec::new();
    let mut labels: Vec<Option<String>> = Vec::new();
    let mut at: usize = 0;
    proof {
        assert(process_views(processes@) =~= Seq::<ProcessView>::empty());
        assert(optional_texts(labels@) =~= Seq::<Option<Seq<char>>>::empty());
    }
    while at < order.len()
        invariant
            forall|i: int| 0 <= i < typed@.len() ==> (#[trigger] typed@[i]).wf(),
            forall|i: int| 0 <= i < order@.len() ==> (#[trigger] order@[i]).index < typed@.len(),
            around == (Surroundings { document: document@, base: base_dir@, facts: *facts }),
            view == order_view(order@),
            chosen == borrowed(selection),
            at <= order.len(),
            set_reading(
                typed@,
                view,
                at as int,
                chosen,
                changes,
                pairs(environment@),
                around,
            ) == Ok::<(Seq<ProcessView>, Seq<Option<Seq<char>>>), Seq<char>>(
                (process_views(processes@), optional_texts(labels@)),
            ),
        decreases order.len() - at,
    {
        let process = &typed[order[at].index];
        let ghost before = process_views(processes@);
        let ghost labels_before = optional_texts(labels@);
        let ghost step = set_reading(
            typed@,
            view,
            at + 1,
            chosen,
            changes,
            pairs(environment@),
            around,
        );
        proof {
            assert(view[at as int].0 == order@[at as int].index);
        }
        let raw = process_entry(document, process.name.as_str());
        match build_profiled_process(process, &raw, base_dir, environment, facts) {
            Err(error) => {
                proof {
                    failure_stays(
                        typed@,
                        view,
                        at + 1,
                        view.len() as int,
                        chosen,
                        changes,
                        pairs(environment@),
                        around,
                    );
                }
                return Err(error);
            },
            Ok(profiled) => {
                let label = label_of(&profiled, selection);
                let spec = process_of(&profiled, &label);
                let shown = if changes {
                    match selection {
                        Some(name) => Some(name.to_owned()),
                        None => None,
                    }
                } else {
                    label
                };
                processes.push(spec);
                labels.push(shown);
                proof {
                    assert(process_views(processes@) =~= before.push(spec@));
                    assert(optional_texts(labels@) =~= labels_before.push(option_view(shown)));
                }
            },
        }
        at = at + 1;
    }
    Ok(ResolvedSet { processes, labels })
}

/// A failure on the way is the failure of the whole.
proof fn failure_stays(
    typed: Seq<TypedProcess>,
    order: Seq<(int, Option<Seq<char>>)>,
    early: int,
    count: int,
    selection: Option<Seq<char>>,
    changes: bool,
    environment: Entries,
    around: Surroundings,
)
    requires
        0 <= early <= count <= order.len(),
        set_reading(typed, order, early, selection, changes, environment, around) is Err,
    ensures
        set_reading(typed, order, count, selection, changes, environment, around) == set_reading(
            typed,
            order,
            early,
            selection,
            changes,
            environment,
            around,
        ),
    decreases count,
{
    if early < count {
        failure_stays(
            typed,
            order,
            early,
            count - 1,
            selection,
            changes,
            environment,
            around,
        );
    }
}

fn resolve_selection(
    document: &Yaml,
    file: &ConfigFile,
    typed: &Vec<TypedProcess>,
    order: &Vec<OrderedProcess>,
    selection: Option<&str>,
    base_dir: &str,
    facts: &FileFacts,
) -> (r: Result<ResolvedSet, ConfigError>)
    requires
        forall|i: int| 0 <= i < typed@.len() ==> (#[trigger] typed@[i]).wf(),
        forall|i: int| 0 <= i < order@.len() ==> (#[trigger] order@[i]).index < typed@.len(),
    ensures
        (match r {
            Ok(set) => Ok(
                (ProcessSet {
                    profile: borrowed(selection),
                    processes: process_views(set.processes@),
                    labels: optional_texts(set.labels@),
                }),
            ),
            Err(error) => Err(error.message@),
        }) == selection_reading(
            *file,
            typed@,
            order_view(order@),
            borrowed(selection),
            (Surroundings { document: document@, base: base_dir@, facts: *facts }),
        ),
        r matches Ok(set) ==> {
            &&& names(process_views(set.processes@)) == ordered_names(
                typed@,
                order_view(order@),
                order@.len() as int,
            )
            &&& set.labels.len() == order.len()
            &&& set.processes.len() == order.len()
        },
{
    let none: Vec<String> = Vec::new();
    proof {
        assert(texts(none@) =~= Seq::<Seq<char>>::empty());
    }
    let project_files = match &file.env_files {
        Some(files) => files,
        None => &none,
    };
    let mut files = project_files;
    let mut changes = false;
    let mut owner = "Project".to_owned();
    if let Some(name) = selection {
        owner = concat3("Project Profile '", name, "'");
        if let Some(index) = find_project_profile(&file.profiles, name) {
            if let Some(own) = &file.profiles[index].1.env_files {
                files = own;
                changes = true;
            }
        }
    }
    let start: Vec<(String, String)> = Vec::new();
    proof {
        assert(pairs(start@) =~= Seq::<(Seq<char>, Seq<char>)>::empty());
    }
    let environment = match load_files(base_dir, files, owner.as_str(), facts, start) {
        Ok(environment) => environment,
        Err(error) => {
            return Err(error);
        },
    };
    proof {
        selections_follow_visual_order(
            typed@,
            order_view(order@),
            order@.len() as int,
            borrowed(selection),
            changes,
            pairs(environment@),
            (Surroundings { document: document@, base: base_dir@, facts: *facts }),
        );
    }
    resolve_set(document, typed, order, selection, changes, &environment, base_dir, facts)
}

/// A failure among the first profiles is the failure of all of them.
proof fn named_failure_stays(
    file: ConfigFile,
    typed: Seq<TypedProcess>,
    order: Seq<(int, Option<Seq<char>>)>,
    profiles: Seq<Seq<char>>,
    early: int,
    count: int,
    around: Surroundings,
)
    requires
        0 <= early <= count <= profiles.len(),
        named_sets(file, typed, order, profiles, early, around) is Err,
    ensures
        named_sets(file, typed, order, profiles, count, around) == named_sets(
            file,
            typed,
            order,
            profiles,
            early,
            around,
        ),
    decreases count,
{
    if early < count {
        named_failure_stays(file, typed, order, profiles, early, count - 1, around);
    }
}

fn resolve_named(
    document: &Yaml,
    file: &ConfigFile,
    typed: &Vec<TypedProcess>,
    order: &Vec<OrderedProcess>,
    profiles: &Vec<String>,
    base_dir: &str,
    facts: &FileFacts,
) -> (r: Result<Vec<ResolvedProfile>, ConfigError>)
    requires
        forall|i: int| 0 <= i < typed@.len() ==> (#[trigger] typed@[i]).wf(),
        forall|i: int| 0 <= i < order@.len() ==> (#[trigger] order@[i]).index < typed@.len(),
    ensures
        (match r {
            Ok(sets) => Ok(profile_sets(sets@)),
            Err(error) => Err(error.message@),
        }) == named_sets(
            *file,
            typed@,
            order_view(order@),
            texts(profiles@),
            profiles@.len() as int,
            (Surroundings { document: document@, base: base_dir@, facts: *facts }),
        ),
        r matches Ok(sets) ==> {
            &&& sets.len() == profiles.len()
            &&& forall|k: int|
                0 <= k < sets@.len() ==> {
                    &&& (#[trigger] sets@[k]).name@ == profiles@[k]@
                    &&& names(process_views(sets@[k].processes@)) == ordered_names(
                        typed@,
                        order_view(order@),
                        order@.len() as int,
                    )
                    &&& sets@[k].labels.len() == sets@[k].processes.len()
                }
        },
{
    let ghost around = Surroundings { document: document@, base: base_dir@, facts: *facts };
    let ghost view = order_view(order@);
    let ghost all = texts(profiles@);
    let mut sets: Vec<ResolvedProfile> = Vec::new();
    let mut at: usize = 0;
    proof {
        assert(profile_sets(sets@) =~= Seq::<ProcessSet>::empty());
    }
    while at < profiles.len()
        invariant
            forall|i: int| 0 <= i < typed@.len() ==> (#[trigger] typed@[i]).wf(),
            forall|i: int| 0 <= i < order@.len() ==> (#[trigger] order@[i]).index < typed@.len(),
            around == (Surroundings { document: document@, base: base_dir@, facts: *facts }),
            view == order_view(order@),
            all == texts(profiles@),
            at <= profiles.len(),
            sets.len() == at,
            named_sets(*file, typed@, view, all, at as int, around) == Ok::<
                Seq<ProcessSet>,
                Seq<char>,
            >(profile_sets(sets@)),
            forall|k: int|
                0 <= k < sets@.len() ==> {
                    &&& (#[trigger] sets@[k]).name@ == profiles@[k]@
                    &&& names(process_views(sets@[k].processes@)) == ordered_names(
                        typed@,
                        view,
                        order@.len() as int,
                    )
                    &&& sets@[k].labels.len() == sets@[k].processes.len()
                },
        decreases profiles.len() - at,
    {
        let name = profiles[at].as_str();
        let ghost before = profile_sets(sets@);
        match resolve_selection(document, file, typed, order, Some(name), base_dir, facts) {
            Err(error) => {
                proof {
                    assert(named_sets(*file, typed@, view, all, at + 1, around) is Err);
                    named_failure_stays(
                        *file,
                        typed@,
                        view,
                        all,
                        at + 1,
                        all.len() as int,
                        around,
                    );
                }
                return Err(error);
            },
            Ok(set) => {
                let resolved = ResolvedProfile {
                    name: profiles[at].clone(),
                    processes: set.processes,
                    labels: set.labels,
                };
                sets.push(resolved);
                proof {
                    assert(profile_sets(sets@) =~= before.push(resolved@));
                }
            },
        }
        at = at + 1;
    }
    Ok(sets)
}

fn check_profiles(file: &ConfigFile, names: &Vec<String>, profile: Option<&str>) -> (r: Result<
    (),
    ConfigError,
>)
    requires
        texts(names@) == selectable_names(*file),
    ensures
        super::shapes::fault_of(r) == profiles_refused(*file, borrowed(profile)),
{
    if find_project_profile(&file.profiles, "base").is_some() {
        return Err(
            ConfigError {
                message: "Project Profile name 'base' is reserved for the base Project".to_owned(),
            },
        );
    }
    match profile {
        Some(name) => if has_text(names, name) {
            Ok(())
        } else {
            Err(ConfigError { message: concat3("unknown Process Profile '", name, "'") })
        },
        None => Ok(()),
    }
}

fn group_names(order: &Vec<OrderedProcess>) -> (r: Vec<Option<String>>)
    ensures
        r.len() == order.len(),
        optional_texts(r@) == order_view(order@).map_values(
            |entry: (int, Option<Seq<char>>)| entry.1,
        ),
{
    let ghost all = order_view(order@).map_values(|entry: (int, Option<Seq<char>>)| entry.1);
    let mut found: Vec<Option<String>> = Vec::new();
    let mut index: usize = 0;
    while index < order.len()
        invariant
            index <= order.len(),
            found.len() == index,
            all == order_view(order@).map_values(|entry: (int, Option<Seq<char>>)| entry.1),
            optional_texts(found@) == all.take(index as int),
        decreases order.len() - index,
    {
        let group = match &order[index].group {
            Some(name) => Some(name.clone()),
            None => None,
        };
        found.push(group);
        proof {
            assert(optional_texts(found@) =~= all.take(index + 1));
        }
        index = index + 1;
    }
    proof {
        assert(all.take(index as int) =~= all);
    }
    found
}

fn lower(
    document: &Yaml,
    file: &ConfigFile,
    typed: &Vec<TypedProcess>,
    profile: Option<&str>,
    base_dir: &str,
    facts: &FileFacts,
) -> (r: Result<EffectiveProject, ConfigError>)
    requires
        typed@.len() == file.processes@.len(),
        forall|i: int| 0 <= i < typed@.len() ==> (#[trigger] typed@[i]).wf(),
    ensures
        match r {
            Ok(project) => {
                &&& project.wf()
                &&& project_reading(
                    *file,
                    typed@,
                    borrowed(profile),
                    (Surroundings { document: document@, base: base_dir@, facts: *facts }),
                ) == Ok::<ResolvedView, Seq<char>>(project_view(project))
            },
            Err(error) => project_reading(
                *file,
                typed@,
                borrowed(profile),
                (Surroundings { document: document@, base: base_dir@, facts: *facts }),
            ) == Err::<ResolvedView, Seq<char>>(error.message@),
        },
{
    let shell = match build_shell(&file.settings) {
        Ok(shell) => shell,
        Err(error) => {
            return Err(error);
        },
    };
    let listed = process_names(&file.processes);
    let order = match order_processes(&listed, &file.groups) {
        Ok(order) => order,
        Err(error) => {
            return Err(error);
        },
    };
    let profiles = profile_names(file);
    if let Err(error) = check_profiles(file, &profiles, profile) {
        return Err(error);
    }
    let base = match resolve_selection(document, file, typed, &order, None, base_dir, facts) {
        Ok(set) => set,
        Err(error) => {
            return Err(error);
        },
    };
    let named = match resolve_named(document, file, typed, &order, &profiles, base_dir, facts) {
        Ok(sets) => sets,
        Err(error) => {
            return Err(error);
        },
    };
    proof {
        let chosen = selectable(profile_sets(named@));
        let all = texts(profiles@);
        ordered_texts_are_distinct(all);
        assert forall|k: int| 0 <= k < chosen.len() implies #[trigger] chosen[k] == Some(all[k]) by {
            assert(named@[k].name@ == profiles@[k]@);
        }
        assert(chosen.no_duplicates());
        if let Some(name) = profile {
            let at = choose|k: int| 0 <= k < all.len() && all[k] == name@;
            assert(chosen[at] == Some(name@));
        }
    }
    let built = EffectiveProject::with_resolved_profiles(
        base.processes,
        base.labels,
        named,
        profile,
        shell,
    );
    let project = match built {
        Ok(project) => project,
        Err(error) => {
            return Err(ConfigError { message: format_project_error(&error) });
        },
    };
    let base_profile_name = match &file.base_profile_name {
        Some(name) => name.clone(),
        None => "base".to_owned(),
    };
    let port_discovery = match &file.settings {
        Some(settings) => match settings.port_discovery {
            Some(value) => value,
            None => false,
        },
        None => false,
    };
    let groups = group_names(&order);
    proof {
        assert(names(project.current().processes).len() == project.current().processes.len());
        assert(names(project.sets()[0].processes).len() == project.sets()[0].processes.len());
    }
    Ok(project.with_presentation(groups, base_profile_name, port_discovery))
}

/// Resolves one typed configuration into a validated Project. `typed` holds
/// the Processes of `file`, in its order. A failure names the last layer of
/// the configuration.
pub fn resolve_project(
    document: &Document,
    file: &ConfigFile,
    typed: &Vec<TypedProcess>,
    profile: Option<&str>,
    base_dir: &str,
    facts: &FileFacts,
) -> (r: Result<EffectiveProject, ConfigError>)
    requires
        typed@.len() == file.processes@.len(),
        forall|i: int| 0 <= i < typed@.len() ==> (#[trigger] typed@[i]).wf(),
    ensures
        match project_reading(
            *file,
            typed@,
            borrowed(profile),
            (Surroundings { document: document.tree@, base: base_dir@, facts: *facts }),
        ) {
            Ok(view) => r matches Ok(project) && project.wf() && project_view(project) == view,
            Err(message) => r matches Err(error) && error.message@ == sourced(
                message,
                document.layer@,
            ),
        },
{
    match lower(&document.tree, file, typed, profile, base_dir, facts) {
        Ok(project) => Ok(project),
        Err(error) => Err(with_source(error, document.layer.as_str())),
    }
}

} // verus!
