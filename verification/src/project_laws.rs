//! Which Projects are accepted, and which specification of a Process is used.

use vstd::prelude::*;

#[allow(unused_imports)]
use crate::graph::{
    closed_graph, cycle_excludes_startup_order, first_cycle, reported_cycle_is_real, startup_order,
};
#[allow(unused_imports)]
use crate::model::{
    launch_words, optional_text, CommandView, DependencyCondition, ProcessKind, ProcessSpec,
    ProcessView, RestartPolicy, ShellView,
};
#[allow(unused_imports)]
use crate::project::{
    dependencies_fault, dependency_fault, dependency_graph, kind_fault, labelled_process, names,
    process_fault, processes_fault, profile_label, project_fault, repeated_name,
    selectable, set_for_selection, sets_for_names, variant_names, variant_views, EffectiveProject, ProjectFault,
};

verus! {

/// Whether a condition can hold of a Process of a kind: every Process starts,
/// only a Service gets ready, and only a One-shot ends by itself.
pub open spec fn can_hold(condition: DependencyCondition, kind: ProcessKind) -> bool {
    match condition {
        DependencyCondition::Started => true,
        DependencyCondition::Ready => kind == ProcessKind::Service,
        DependencyCondition::Exited => kind == ProcessKind::OneShot,
        DependencyCondition::CompletedSuccessfully => kind == ProcessKind::OneShot,
    }
}

/// Whether a Dependency names a Process of the list of which its condition can
/// hold.
pub open spec fn can_be_met(
    processes: Seq<ProcessView>,
    dependency: (Seq<char>, DependencyCondition),
) -> bool {
    exists|j: int|
        0 <= j < processes.len() && (#[trigger] processes[j]).name == dependency.0 && can_hold(
            dependency.1,
            processes[j].kind,
        )
}

/// Whether a Process asks for nothing that its kind cannot have: a One-shot has
/// no checks and is not restarted for ever.
pub open spec fn suits_its_kind(process: ProcessView) -> bool {
    process.kind == ProcessKind::OneShot ==> process.readiness is None && process.liveness is None
        && process.restart.policy != RestartPolicy::Always
}

/// Whether Processes fit together, but for the order in which they start.
pub open spec fn fits_together(processes: Seq<ProcessView>) -> bool {
    &&& forall|i: int, j: int|
        0 <= i < j < processes.len() ==> (#[trigger] processes[i]).name != (
        #[trigger] processes[j]).name
    &&& forall|i: int, e: int|
        #![trigger processes[i].dependencies[e]]
        0 <= i < processes.len() && 0 <= e < processes[i].dependencies.len() ==> can_be_met(
            processes,
            processes[i].dependencies[e],
        )
    &&& forall|i: int| 0 <= i < processes.len() ==> suits_its_kind(#[trigger] processes[i])
}

proof fn repeats_are_found(all: Seq<Seq<char>>, from: int)
    requires
        0 <= from <= all.len(),
    ensures
        repeated_name(all, from) is None <==> forall|i: int, j: int|
            0 <= i < j < all.len() && from <= j ==> #[trigger] all[i] != #[trigger] all[j],
    decreases all.len() - from,
{
    if from < all.len() {
        repeats_are_found(all, from + 1);
        if all.take(from).contains(all[from]) {
            let i = choose|i: int| 0 <= i < from && all.take(from)[i] == all[from];
            assert(all[i] == all[from]);
        } else {
            assert forall|i: int| 0 <= i < from implies all[i] != all[from] by {
                assert(all.take(from)[i] == all[i]);
            }
        }
    }
}

proof fn dependency_faults_are_found(
    processes: Seq<ProcessView>,
    process: ProcessView,
    dependency: (Seq<char>, DependencyCondition),
)
    requires
        forall|i: int, j: int|
            0 <= i < j < processes.len() ==> (#[trigger] processes[i]).name != (
            #[trigger] processes[j]).name,
    ensures
        dependency_fault(processes, process, dependency) is None <==> can_be_met(
            processes,
            dependency,
        ),
{
    let all = names(processes);
    all.index_of_first_ensures(dependency.0);
    assert(forall|i: int| 0 <= i < processes.len() ==> #[trigger] all[i] == processes[i].name);
    if can_be_met(processes, dependency) {
        let j = choose|j: int|
            0 <= j < processes.len() && (#[trigger] processes[j]).name == dependency.0 && can_hold(
                dependency.1,
                processes[j].kind,
            );
        assert(all[j] == dependency.0);
        assert(all.contains(dependency.0));
        let first = all.index_of_first(dependency.0)->0;
        if first < j {
            assert(processes[first].name != processes[j].name);
        }
    }
    if let Some(position) = all.index_of_first(dependency.0) {
        assert(all[position] == dependency.0);
        assert(processes[position].name == dependency.0);
    }
}

proof fn process_faults_are_found(processes: Seq<ProcessView>, process: ProcessView, from: int)
    requires
        0 <= from <= process.dependencies.len(),
        forall|i: int, j: int|
            0 <= i < j < processes.len() ==> (#[trigger] processes[i]).name != (
            #[trigger] processes[j]).name,
    ensures
        dependencies_fault(processes, process, from) is None <==> forall|e: int|
            from <= e < process.dependencies.len() ==> can_be_met(
                processes,
                #[trigger] process.dependencies[e],
            ),
    decreases process.dependencies.len() - from,
{
    if from < process.dependencies.len() {
        dependency_faults_are_found(processes, process, process.dependencies[from]);
        process_faults_are_found(processes, process, from + 1);
    }
}

proof fn faults_are_found(processes: Seq<ProcessView>, from: int)
    requires
        0 <= from <= processes.len(),
        forall|i: int, j: int|
            0 <= i < j < processes.len() ==> (#[trigger] processes[i]).name != (
            #[trigger] processes[j]).name,
    ensures
        processes_fault(processes, from) is None <==> forall|i: int|
            #![trigger processes[i]]
            from <= i < processes.len() ==> suits_its_kind(processes[i]) && forall|e: int|
                0 <= e < processes[i].dependencies.len() ==> can_be_met(
                    processes,
                    #[trigger] processes[i].dependencies[e],
                ),
    decreases processes.len() - from,
{
    if from < processes.len() {
        process_faults_are_found(processes, processes[from], 0);
        faults_are_found(processes, from + 1);
        assert(kind_fault(processes[from]) is None <==> suits_its_kind(processes[from]));
    }
}

/// An accepted Project fits together: its names are distinct, every Dependency
/// names a Process of which its condition can hold, and no One-shot has checks
/// or restarts for ever.
pub proof fn accepted_projects_fit_together(processes: Seq<ProcessView>)
    requires
        project_fault(processes) is None,
    ensures
        fits_together(processes),
{
    let all = names(processes);
    repeats_are_found(all, 0);
    assert forall|i: int, j: int| 0 <= i < j < processes.len() implies (#[trigger] processes[i]).name
        != (#[trigger] processes[j]).name by {
        assert(all[i] != all[j]);
    }
    faults_are_found(processes, 0);
}

/// A Project that fits together and has a startup order is accepted.
pub proof fn startable_projects_are_accepted(processes: Seq<ProcessView>, order: Seq<int>)
    requires
        fits_together(processes),
        startup_order(dependency_graph(processes), order),
    ensures
        project_fault(processes) is None,
{
    let all = names(processes);
    repeats_are_found(all, 0);
    faults_are_found(processes, 0);
    let graph = dependency_graph(processes);
    assert forall|i: int, k: int| 0 <= i < graph.len() && 0 <= k < graph[i].len() implies 0
        <= #[trigger] graph[i][k] < graph.len() by {
        let dependency = processes[i].dependencies[k];
        assert(can_be_met(processes, dependency));
        let j = choose|j: int|
            0 <= j < processes.len() && (#[trigger] processes[j]).name == dependency.0 && can_hold(
                dependency.1,
                processes[j].kind,
            );
        assert(all[j] == dependency.0);
        assert(all.contains(dependency.0));
        all.index_of_first_ensures(dependency.0);
    }
    if first_cycle(graph) is Some {
        reported_cycle_is_real(graph);
        cycle_excludes_startup_order(graph, first_cycle(graph)->0, order);
    }
}

/// Whether Processes are started after everything on which they depend.
pub open spec fn starts_in_order(processes: Seq<ProcessView>, order: Seq<int>) -> bool {
    &&& order.len() == processes.len()
    &&& order.no_duplicates()
    &&& forall|k: int| 0 <= k < order.len() ==> 0 <= #[trigger] order[k] < processes.len()
    &&& forall|k: int, e: int|
        #![trigger processes[order[k]].dependencies[e]]
        0 <= k < order.len() && 0 <= e < processes[order[k]].dependencies.len() ==> starts_before(
            processes,
            order,
            k,
            processes[order[k]].dependencies[e].0,
        )
}

/// Whether a Process of a name is started before a place of an order.
pub open spec fn starts_before(
    processes: Seq<ProcessView>,
    order: Seq<int>,
    place: int,
    name: Seq<char>,
) -> bool {
    exists|m: int| 0 <= m < place && processes[#[trigger] order[m]].name == name
}

#[verifier::spinoff_prover]
proof fn dependencies_come_first(processes: Seq<ProcessView>, order: Seq<int>)
    requires
        fits_together(processes),
        startup_order(dependency_graph(processes), order),
    ensures
        starts_in_order(processes, order),
{
    let graph = dependency_graph(processes);
    assert(graph.len() == processes.len());
    assert(order.len() == processes.len());
    assert forall|k: int| 0 <= k < order.len() implies 0 <= #[trigger] order[k]
        < processes.len() by {
        assert(0 <= order[k] < graph.len());
    }
    let all = names(processes);
    assert forall|k: int, e: int|
        #![trigger processes[order[k]].dependencies[e]]
        0 <= k < order.len() && 0 <= e < processes[order[k]].dependencies.len() implies starts_before(
        processes,
        order,
        k,
        processes[order[k]].dependencies[e].0,
    ) by {
        let dependency = processes[order[k]].dependencies[e];
        let target = graph[order[k]][e];
        assert(order.take(k).contains(target));
        let m = choose|m: int| 0 <= m < k && order.take(k)[m] == target;
        assert(order[m] == target);
        assert(can_be_met(processes, dependency));
        let j = choose|j: int|
            0 <= j < processes.len() && (#[trigger] processes[j]).name == dependency.0 && can_hold(
                dependency.1,
                processes[j].kind,
            );
        assert(all[j] == dependency.0);
        assert(all.contains(dependency.0));
        all.index_of_first_ensures(dependency.0);
        assert(all[target] == dependency.0);
    }
    assert(order.no_duplicates());
}

/// Every selection of a Project fits together and can be started in an order in
/// which each Process comes after all that it depends on.
pub proof fn every_selection_starts_in_order(project: EffectiveProject, selection: int)
    requires
        project.wf(),
        0 <= selection < project.sets().len(),
    ensures
        fits_together(project.sets()[selection].processes),
        exists|order: Seq<int>|
            #[trigger] starts_in_order(project.sets()[selection].processes, order),
{
    let processes = project.sets()[selection].processes;
    accepted_projects_fit_together(processes);
    crate::project::every_selection_can_start(project, selection);
    let order = choose|order: Seq<int>| startup_order(dependency_graph(processes), order);
    dependencies_come_first(processes, order);
    assert(starts_in_order(processes, order));
}

/// Which specification of a Process is used: the one that its own file fixes,
/// where `base` is its plain one; else the one under the selected profile, if
/// it has one; else the plain one.
pub proof fn the_right_variant_is_used(
    base: ProcessView,
    variants: Seq<(Seq<char>, ProcessView)>,
    fixed: Option<Seq<char>>,
    selection: Option<Seq<char>>,
    at: int,
)
    requires
        forall|i: int, j: int|
            0 <= i < j < variants.len() ==> (#[trigger] variants[i]).0 != (
            #[trigger] variants[j]).0,
        0 <= at < variants.len(),
    ensures
        ({
            let used = labelled_process(base, variants, profile_label(variants, fixed, selection));
            let label = profile_label(variants, fixed, selection);
            let name = variants[at].0;
            &&& fixed == Some("base"@) ==> used == base && label is None
            &&& fixed == Some(name) && name != "base"@ ==> used == variants[at].1 && label == Some(
                name,
            )
            &&& fixed is None && selection == Some(name) ==> used == variants[at].1 && label
                == Some(name)
            &&& fixed is None && selection is None ==> used == base && label is None
        }),
{
    let all = variant_names(variants);
    assert(all[at] == variants[at].0);
    assert(all.contains(variants[at].0));
    all.index_of_first_ensures(variants[at].0);
    let first = all.index_of_first(variants[at].0)->0;
    assert(all[first] == variants[first].0);
}

/// A Process that has no specification under the selected profile, and fixes
/// none, uses its plain one.
pub proof fn other_profiles_use_the_base(
    base: ProcessView,
    variants: Seq<(Seq<char>, ProcessView)>,
    selection: Seq<char>,
)
    requires
        forall|i: int| 0 <= i < variants.len() ==> (#[trigger] variants[i]).0 != selection,
    ensures
        labelled_process(base, variants, profile_label(variants, None, Some(selection))) == base,
        profile_label(variants, None, Some(selection)) is None,
{
    let all = variant_names(variants);
    if all.contains(selection) {
        let i = choose|i: int| 0 <= i < all.len() && all[i] == selection;
        assert(variants[i].0 == selection);
    }
}

/// A direct command is launched as it stands, and a shell expression as the
/// last word of the shell.
pub proof fn commands_are_launched_as_given(command: CommandView, shell: ShellView)
    ensures
        match command {
            CommandView::Direct { program, args } => launch_words(command, shell).0 == program
                && launch_words(command, shell).1 == args,
            CommandView::Shell { text } => {
                &&& launch_words(command, shell).0 == shell.program
                &&& launch_words(command, shell).1.last() == text
                &&& launch_words(command, shell).1.drop_last() == shell.args
            },
        },
{
    if let CommandView::Shell { text } = command {
        assert(shell.args.push(text).drop_last() =~= shell.args);
    }
}

/// Whether what a fault says of a Project is so.
pub open spec fn is_so(processes: Seq<ProcessView>, fault: ProjectFault) -> bool {
    match fault {
        ProjectFault::DuplicateName(name) => exists|i: int, j: int|
            0 <= i < j < processes.len() && (#[trigger] processes[i]).name == name && (
            #[trigger] processes[j]).name == name,
        ProjectFault::UnknownDependency { process, dependency } => {
            &&& depends(processes, process, dependency)
            &&& forall|i: int|
                0 <= i < processes.len() ==> (#[trigger] processes[i]).name != dependency
        },
        ProjectFault::InvalidCondition { process, dependency, condition } => depends(
            processes,
            process,
            dependency,
        ),
        ProjectFault::ReadinessOnOneShot { process } => exists|i: int|
            0 <= i < processes.len() && (#[trigger] processes[i]).name == process
                && processes[i].kind == ProcessKind::OneShot && processes[i].readiness is Some,
        ProjectFault::LivenessOnOneShot { process } => exists|i: int|
            0 <= i < processes.len() && (#[trigger] processes[i]).name == process
                && processes[i].kind == ProcessKind::OneShot && processes[i].liveness is Some,
        ProjectFault::InvalidRestartPolicy { process, policy } => exists|i: int|
            0 <= i < processes.len() && (#[trigger] processes[i]).name == process
                && processes[i].kind == ProcessKind::OneShot && processes[i].restart.policy
                == RestartPolicy::Always,
        ProjectFault::DependencyCycle(path) => true,
        ProjectFault::InvalidProcessProfileGraph { .. } => true,
    }
}

/// Whether a Process of a name depends on another.
pub open spec fn depends(
    processes: Seq<ProcessView>,
    process: Seq<char>,
    dependency: Seq<char>,
) -> bool {
    exists|i: int, k: int|
        0 <= i < processes.len() && 0 <= k < processes[i].dependencies.len() && processes[i].name
            == process && (#[trigger] processes[i].dependencies[k]).0 == dependency
}

proof fn a_dependency_fault_is_so(processes: Seq<ProcessView>, at: int, from: int)
    requires
        0 <= at < processes.len(),
        0 <= from,
    ensures
        dependencies_fault(processes, processes[at], from) matches Some(fault) ==> is_so(
            processes,
            fault,
        ),
    decreases processes[at].dependencies.len() - from,
{
    let process = processes[at];
    if from < process.dependencies.len() {
        let dependency = process.dependencies[from];
        assert(processes[at].dependencies[from].0 == dependency.0);
        assert(depends(processes, process.name, dependency.0));
        let all = names(processes);
        if all.index_of_first(dependency.0) is None {
            all.index_of_first_ensures(dependency.0);
            assert forall|i: int| 0 <= i < processes.len() implies (#[trigger] processes[i]).name
                != dependency.0 by {
                assert(all[i] == processes[i].name);
            }
        }
        a_dependency_fault_is_so(processes, at, from + 1);
    }
}

proof fn a_process_fault_is_so(processes: Seq<ProcessView>, from: int)
    requires
        0 <= from,
    ensures
        processes_fault(processes, from) matches Some(fault) ==> is_so(processes, fault),
    decreases processes.len() - from,
{
    if from < processes.len() {
        a_dependency_fault_is_so(processes, from, 0);
        assert(processes[from].name == processes[from].name);
        a_process_fault_is_so(processes, from + 1);
    }
}

proof fn a_repeated_name_is_so(processes: Seq<ProcessView>, from: int)
    requires
        0 <= from,
    ensures
        repeated_name(names(processes), from) matches Some(name) ==> is_so(
            processes,
            ProjectFault::DuplicateName(name),
        ),
    decreases processes.len() - from,
{
    let all = names(processes);
    if from < processes.len() {
        if all.take(from).contains(all[from]) {
            let i = choose|i: int| 0 <= i < from && all.take(from)[i] == all[from];
            assert(processes[i].name == all[from]);
            assert(processes[from].name == all[from]);
        }
        a_repeated_name_is_so(processes, from + 1);
    }
}

/// A Project is refused for what is so: the Processes and Dependencies that are
/// named have the fault that is told of them.
pub proof fn reported_faults_are_so(processes: Seq<ProcessView>)
    ensures
        project_fault(processes) matches Some(fault) ==> is_so(processes, fault),
{
    a_repeated_name_is_so(processes, 0);
    a_process_fault_is_so(processes, 0);
}

/// The set of a selection holds, for every Process, the specification that its
/// own fixed profile or the selection asks for.
pub proof fn selections_use_their_variants(
    base: Seq<ProcessSpec>,
    variants: Seq<Vec<(String, ProcessSpec)>>,
    fixed: Seq<Option<String>>,
    selection: Option<Seq<char>>,
    at: int,
    k: int,
)
    requires
        0 <= at < base.len(),
        variants.len() == base.len(),
        fixed.len() == base.len(),
        0 <= k < variants[at]@.len(),
        forall|i: int, j: int|
            0 <= i < j < variants[at]@.len() ==> (#[trigger] variants[at]@[i]).0@ != (
            #[trigger] variants[at]@[j]).0@,
    ensures
        ({
            let set = set_for_selection(base, variants, fixed, selection);
            let name = variants[at]@[k].0@;
            &&& set.profile == selection
            &&& set.processes.len() == base.len()
            &&& fixed[at] is None && selection == Some(name) ==> set.processes[at]
                == variants[at]@[k].1@ && set.labels[at] == Some(name)
            &&& fixed[at] is None && selection is None ==> set.processes[at] == base[at]@
                && set.labels[at] is None
            &&& fixed[at] matches Some(own) ==> (own@ == name && name != "base"@ ==> set.processes[at]
                == variants[at]@[k].1@ && set.labels[at] == Some(name))
        }),
{
    let views = variant_views(variants[at]@);
    assert forall|i: int, j: int| 0 <= i < j < views.len() implies (#[trigger] views[i]).0 != (
    #[trigger] views[j]).0 by {
        assert(variants[at]@[i].0@ != variants[at]@[j].0@);
    }
    assert(views[k] == (variants[at]@[k].0@, variants[at]@[k].1@));
    the_right_variant_is_used(base[at]@, views, optional_text(fixed[at]), selection, k);
}

/// Selecting another profile changes nothing but the selection: the Processes
/// under every profile, the shell, the Groups, the name of the base and the
/// port discovery stay.
pub proof fn selecting_changes_nothing_else(before: EffectiveProject, after: EffectiveProject)
    requires
        after.same_configuration(&before),
    ensures
        after.sets() == before.sets(),
        after.launcher() == before.launcher(),
        after.grouping() == before.grouping(),
        after.base_name() == before.base_name(),
        after.discovers_ports() == before.discovers_ports(),
        after.current().profile == before.current().profile && before.wf() && after.wf()
            ==> after.current() == before.current(),
{
    if after.current().profile == before.current().profile && before.wf() && after.wf() {
        let all = selectable(before.sets());
        assert(all[before.chosen()] == before.current().profile);
        assert(all[after.chosen()] == after.current().profile);
    }
}

/// The sets of the named selections stand in the order of their names, each
/// under its own.
pub proof fn sets_stand_under_their_names(
    base: Seq<ProcessSpec>,
    variants: Seq<Vec<(String, ProcessSpec)>>,
    fixed: Seq<Option<String>>,
    selections: Seq<String>,
    at: int,
)
    requires
        0 <= at < selections.len(),
    ensures
        sets_for_names(base, variants, fixed, selections).len() == selections.len(),
        sets_for_names(base, variants, fixed, selections)[at].profile == Some(selections[at]@),
        sets_for_names(base, variants, fixed, selections)[at] == set_for_selection(
            base,
            variants,
            fixed,
            Some(selections[at]@),
        ),
{
}

} // verus!
