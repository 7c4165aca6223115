//! The validated set of Processes for one Stackhand session.
//!
//! A Project holds its base Processes and one resolved set of Processes for
//! each selectable profile. Every set has been validated: names are unique,
//! every Dependency names a configured Process under a condition that Process
//! can meet, and the Dependency graph has a startup order.

use vstd::prelude::*;

use crate::graph::find_cycle;
use crate::model::{
    DependencySpec, ProcessKind, ProcessSpec, RestartPolicy, ShellConfig,
};
use crate::text::same_text;

#[allow(unused_imports)]
use crate::graph::{closed_graph, edges, first_cycle, startup_order};
#[allow(unused_imports)]
use crate::model::{optional_text, process_views, DependencyCondition, ProcessView};
#[allow(unused_imports)]
use crate::text::texts;

verus! {

/// Why one effective Project could not be built.
#[derive(Debug, PartialEq, Eq)]
pub enum ProjectError {
    DuplicateName(String),
    /// A Dependency names a Process that is not configured.
    UnknownDependency { process: String, dependency: String },
    /// A Dependency condition is not valid for the dependency Process's
    /// kind; only One-shot dependencies support `exited` and
    /// `completed_successfully`, and only Service dependencies support
    /// `ready`.
    InvalidCondition { process: String, dependency: String, condition: String },
    /// A readiness probe was configured on a One-shot; only Services wait
    /// for readiness.
    ReadinessOnOneShot { process: String },
    /// A liveness probe was configured on a One-shot; only Services have
    /// ongoing health checks.
    LivenessOnOneShot { process: String },
    /// An automatic restart policy is not valid for this Process kind.
    InvalidRestartPolicy { process: String, policy: String },
    /// The Dependency graph has a cycle; the path repeats its first name.
    DependencyCycle(Vec<String>),
    /// One selectable Process Profile produces an invalid effective Project.
    InvalidProcessProfileGraph { profile: String, source: Box<ProjectError> },
}

/// A Project error as character sequences.
pub enum ProjectFault {
    DuplicateName(Seq<char>),
    UnknownDependency { process: Seq<char>, dependency: Seq<char> },
    InvalidCondition { process: Seq<char>, dependency: Seq<char>, condition: Seq<char> },
    ReadinessOnOneShot { process: Seq<char> },
    LivenessOnOneShot { process: Seq<char> },
    InvalidRestartPolicy { process: Seq<char>, policy: Seq<char> },
    DependencyCycle(Seq<Seq<char>>),
    InvalidProcessProfileGraph { profile: Seq<char>, source: Box<ProjectFault> },
}

/// The fault that an error reports.
pub open spec fn fault_of(error: ProjectError) -> ProjectFault
    decreases error,
{
    match error {
        ProjectError::DuplicateName(name) => ProjectFault::DuplicateName(name@),
        ProjectError::UnknownDependency { process, dependency } => ProjectFault::UnknownDependency {
            process: process@,
            dependency: dependency@,
        },
        ProjectError::InvalidCondition { process, dependency, condition } => {
            ProjectFault::InvalidCondition {
                process: process@,
                dependency: dependency@,
                condition: condition@,
            }
        },
        ProjectError::ReadinessOnOneShot { process } => ProjectFault::ReadinessOnOneShot {
            process: process@,
        },
        ProjectError::LivenessOnOneShot { process } => ProjectFault::LivenessOnOneShot {
            process: process@,
        },
        ProjectError::InvalidRestartPolicy { process, policy } => {
            ProjectFault::InvalidRestartPolicy { process: process@, policy: policy@ }
        },
        ProjectError::DependencyCycle(path) => ProjectFault::DependencyCycle(texts(path@)),
        ProjectError::InvalidProcessProfileGraph { profile, source } => {
            ProjectFault::InvalidProcessProfileGraph {
                profile: profile@,
                source: Box::new(fault_of(*source)),
            }
        },
    }
}

/// The Process names in configuration order.
pub open spec fn names(processes: Seq<ProcessView>) -> Seq<Seq<char>> {
    processes.map_values(|process: ProcessView| process.name)
}

/// The first name, at or after `from`, that an earlier Process already has.
pub open spec fn repeated_name(names: Seq<Seq<char>>, from: int) -> Option<Seq<char>>
    decreases names.len() - from,
{
    if from < 0 || from >= names.len() {
        None
    } else if names.take(from).contains(names[from]) {
        Some(names[from])
    } else {
        repeated_name(names, from + 1)
    }
}

/// What is wrong with one Dependency of one Process.
pub open spec fn dependency_fault(
    processes: Seq<ProcessView>,
    process: ProcessView,
    dependency: (Seq<char>, DependencyCondition),
) -> Option<ProjectFault> {
    match names(processes).index_of_first(dependency.0) {
        None => Some(
            ProjectFault::UnknownDependency {
                process: process.name,
                dependency: dependency.0,
            },
        ),
        Some(position) => if dependency.1.fits(processes[position].kind) {
            None
        } else {
            Some(
                ProjectFault::InvalidCondition {
                    process: process.name,
                    dependency: dependency.0,
                    condition: dependency.1.spelling(),
                },
            )
        },
    }
}

/// The first fault among the Dependencies of one Process from entry `from`.
pub open spec fn dependencies_fault(
    processes: Seq<ProcessView>,
    process: ProcessView,
    from: int,
) -> Option<ProjectFault>
    decreases process.dependencies.len() - from,
{
    if from < 0 || from >= process.dependencies.len() {
        None
    } else {
        match dependency_fault(processes, process, process.dependencies[from]) {
            Some(fault) => Some(fault),
            None => dependencies_fault(processes, process, from + 1),
        }
    }
}

/// The settings that a One-shot cannot have.
pub open spec fn kind_fault(process: ProcessView) -> Option<ProjectFault> {
    if process.kind != ProcessKind::OneShot {
        None
    } else if process.readiness is Some {
        Some(ProjectFault::ReadinessOnOneShot { process: process.name })
    } else if process.liveness is Some {
        Some(ProjectFault::LivenessOnOneShot { process: process.name })
    } else if process.restart.policy == RestartPolicy::Always {
        Some(
            ProjectFault::InvalidRestartPolicy {
                process: process.name,
                policy: process.restart.policy.spelling(),
            },
        )
    } else {
        None
    }
}

/// The first fault of one Process: its Dependencies, then its kind.
pub open spec fn process_fault(processes: Seq<ProcessView>, process: ProcessView) -> Option<
    ProjectFault,
> {
    match dependencies_fault(processes, process, 0) {
        Some(fault) => Some(fault),
        None => kind_fault(process),
    }
}

/// The first fault among the Processes from position `from`.
pub open spec fn processes_fault(processes: Seq<ProcessView>, from: int) -> Option<ProjectFault>
    decreases processes.len() - from,
{
    if from < 0 || from >= processes.len() {
        None
    } else {
        match process_fault(processes, processes[from]) {
            Some(fault) => Some(fault),
            None => processes_fault(processes, from + 1),
        }
    }
}

/// The positions that one Process depends on, in configuration order.
pub open spec fn dependency_positions(
    processes: Seq<ProcessView>,
    process: ProcessView,
) -> Seq<int> {
    process.dependencies.map_values(
        |dependency: (Seq<char>, DependencyCondition)| names(processes).index_of_first(dependency.0)->0,
    )
}

/// The Dependency graph by position.
pub open spec fn dependency_graph(processes: Seq<ProcessView>) -> Seq<Seq<int>> {
    processes.map_values(|process: ProcessView| dependency_positions(processes, process))
}

/// The names along a path of positions.
pub open spec fn names_along(processes: Seq<ProcessView>, path: Seq<int>) -> Seq<Seq<char>> {
    path.map_values(|position: int| processes[position].name)
}

/// The first fault of a set of Processes: a repeated name, then the first
/// faulty Process in configuration order, then a Dependency cycle.
pub open spec fn project_fault(processes: Seq<ProcessView>) -> Option<ProjectFault> {
    match repeated_name(names(processes), 0) {
        Some(name) => Some(ProjectFault::DuplicateName(name)),
        None => match processes_fault(processes, 0) {
            Some(fault) => Some(fault),
            None => match first_cycle(dependency_graph(processes)) {
                Some(cycle) => Some(ProjectFault::DependencyCycle(names_along(processes, cycle))),
                None => None,
            },
        },
    }
}

/// The first Process with this name.
pub fn position_of_name(processes: &Vec<ProcessSpec>, name: &str) -> (r: Option<usize>)
    ensures
        match r {
            Some(position) => names(process_views(processes@)).index_of_first(name@) == Some(position as int),
            None => names(process_views(processes@)).index_of_first(name@) is None,
        },
        r is Some ==> r->0 < processes.len() && processes@[r->0 as int].name@ == name@,
        r is None <==> !names(process_views(processes@)).contains(name@),
{
    let ghost all = names(process_views(processes@));
    proof {
        all.index_of_first_ensures(name@);
    }
    let mut position: usize = 0;
    while position < processes.len()
        invariant
            position <= processes.len(),
            all == names(process_views(processes@)),
            forall|i: int| 0 <= i < position ==> all[i] != name@,
            all.contains(name@) ==> {
                &&& 0 <= all.index_of_first(name@)->0 < all.len()
                &&& all[all.index_of_first(name@)->0] == name@
                &&& forall|j: int| 0 <= j < all.index_of_first(name@)->0 ==> all[j] != name@
                &&& all.index_of_first(name@) is Some
            },
            !all.contains(name@) ==> all.index_of_first(name@) is None,
        decreases processes.len() - position,
    {
        if same_text(processes[position].name.as_str(), name) {
            proof {
                assert(all[position as int] == name@);
            }
            return Some(position);
        }
        position = position + 1;
    }
    None
}

/// Resolve the Dependencies of one Process to positions, or report its first
/// fault.
fn resolve_dependencies(processes: &Vec<ProcessSpec>, index: usize) -> (r: Result<
    Vec<usize>,
    ProjectError,
>)
    requires
        index < processes.len(),
    ensures
        match r {
            Ok(positions) => {
                &&& process_fault(process_views(processes@), processes@[index as int]@) is None
                &&& positions@.map_values(|p: usize| p as int) == dependency_positions(process_views(processes@), processes@[index as int]@,
                )
                &&& forall|k: int| 0 <= k < positions.len() ==> #[trigger] positions@[k] < processes.len()
            },
            Err(error) => process_fault(process_views(processes@), processes@[index as int]@) == Some(
                fault_of(error),
            ),
        },
{
    let process = &processes[index];
    let mut positions: Vec<usize> = Vec::new();
    let mut entry: usize = 0;
    while entry < process.dependencies.len()
        invariant
            index < processes.len(),
            *process == processes@[index as int],
            entry <= process.dependencies.len(),
            positions.len() == entry,
            dependencies_fault(process_views(processes@), process@, 0) == dependencies_fault(
                process_views(processes@),
                process@,
                entry as int,
            ),
            forall|k: int|
                0 <= k < entry ==> {
                    &&& #[trigger] positions@[k] < processes.len()
                    &&& names(process_views(processes@)).index_of_first(process.dependencies@[k].name@) == Some(
                        positions@[k] as int,
                    )
                },
        decreases process.dependencies.len() - entry,
    {
        let dependency = &process.dependencies[entry];
        match position_of_name(processes, dependency.name.as_str()) {
            None => {
                return Err(
                    ProjectError::UnknownDependency {
                        process: process.name.clone(),
                        dependency: dependency.name.clone(),
                    },
                );
            },
            Some(position) => {
                if !dependency.condition.fits_kind(processes[position].kind) {
                    return Err(
                        ProjectError::InvalidCondition {
                            process: process.name.clone(),
                            dependency: dependency.name.clone(),
                            condition: dependency.condition.label().to_owned(),
                        },
                    );
                }
                positions.push(position);
            },
        }
        entry = entry + 1;
    }
    if process.readiness.is_some() && process.kind == ProcessKind::OneShot {
        return Err(ProjectError::ReadinessOnOneShot { process: process.name.clone() });
    }
    if process.liveness.is_some() && process.kind == ProcessKind::OneShot {
        return Err(ProjectError::LivenessOnOneShot { process: process.name.clone() });
    }
    if process.kind == ProcessKind::OneShot && process.restart.policy == RestartPolicy::Always {
        return Err(
            ProjectError::InvalidRestartPolicy {
                process: process.name.clone(),
                policy: process.restart.policy.label().to_owned(),
            },
        );
    }
    proof {
        assert(positions@.map_values(|p: usize| p as int) =~= dependency_positions(
            process_views(processes@),
            process@,
        ));
    }
    Ok(positions)
}

/// Find one cycle in the Dependency graph, or `None` when the graph is
/// acyclic. The reported path visits each Process once and repeats its
/// first name at the end. Configuration order decides the search order so
/// failures stay stable.
fn find_dependency_cycle(
    processes: &Vec<ProcessSpec>,
    dependency_indices: &Vec<Vec<usize>>,
) -> (r: Option<Vec<String>>)
    requires
        dependency_indices.len() == processes.len(),
        closed_graph(edges(dependency_indices@)),
    ensures
        match r {
            Some(path) => {
                &&& first_cycle(edges(dependency_indices@)) is Some
                &&& texts(path@) == names_along(
                    process_views(processes@),
                    first_cycle(edges(dependency_indices@))->0,
                )
            },
            None => {
                &&& first_cycle(edges(dependency_indices@)) is None
                &&& exists|order: Seq<int>| startup_order(edges(dependency_indices@), order)
            },
        },
{
    match find_cycle(dependency_indices) {
        None => None,
        Some(cycle) => {
            let ghost path = cycle@.map_values(|p: usize| p as int);
            proof {
                crate::graph::reported_cycle_is_real(edges(dependency_indices@));
            }
            let mut found: Vec<String> = Vec::new();
            let mut index: usize = 0;
            while index < cycle.len()
                invariant
                    index <= cycle.len(),
                    path == cycle@.map_values(|p: usize| p as int),
                    forall|k: int| 0 <= k < path.len() ==> 0 <= #[trigger] path[k] < processes.len(),
                    texts(found@) == names_along(process_views(processes@), path).take(index as int),
                decreases cycle.len() - index,
            {
                let ghost earlier = found@;
                proof {
                    assert(path[index as int] == cycle@[index as int] as int);
                }
                found.push(processes[cycle[index]].name.clone());
                index = index + 1;
                proof {
                    assert(texts(found@) =~= texts(earlier).push(found@.last()@));
                    assert(names_along(process_views(processes@), path).take(index as int) =~= names_along(
                        process_views(processes@),
                        path,
                    ).take(index - 1).push(names_along(process_views(processes@), path)[index - 1]));
                }
            }
            proof {
                assert(names_along(process_views(processes@), path).take(index as int) =~= names_along(
                    process_views(processes@),
                    path,
                ));
            }
            Some(found)
        },
    }
}

/// Validate one set of Processes and resolve every Dependency to a position.
fn validate(processes: &Vec<ProcessSpec>) -> (r: Result<Vec<Vec<usize>>, ProjectError>)
    ensures
        match r {
            Ok(indices) => valid_set(process_views(processes@), indices@),
            Err(error) => project_fault(process_views(processes@)) == Some(fault_of(error)),
        },
{
    let ghost all = names(process_views(processes@));
    let mut checked: usize = 0;
    while checked < processes.len()
        invariant
            checked <= processes.len(),
            all == names(process_views(processes@)),
            repeated_name(all, 0) == repeated_name(all, checked as int),
        decreases processes.len() - checked,
    {
        let mut earlier: usize = 0;
        while earlier < checked
            invariant
                checked < processes.len(),
                earlier <= checked,
                all == names(process_views(processes@)),
                repeated_name(all, 0) == repeated_name(all, checked as int),
                forall|i: int| 0 <= i < earlier ==> all[i] != all[checked as int],
            decreases checked - earlier,
        {
            if same_text(processes[earlier].name.as_str(), processes[checked].name.as_str()) {
                proof {
                    assert(all.take(checked as int)[earlier as int] == all[checked as int]);
                }
                return Err(ProjectError::DuplicateName(processes[checked].name.clone()));
            }
            earlier = earlier + 1;
        }
        proof {
            assert(!all.take(checked as int).contains(all[checked as int]));
        }
        checked = checked + 1;
    }
    let mut indices: Vec<Vec<usize>> = Vec::new();
    let mut index: usize = 0;
    while index < processes.len()
        invariant
            index <= processes.len(),
            indices.len() == index,
            repeated_name(names(process_views(processes@)), 0) is None,
            processes_fault(process_views(processes@), 0) == processes_fault(process_views(processes@), index as int),
            forall|i: int|
                0 <= i < index ==> (#[trigger] indices@[i])@.map_values(|p: usize| p as int)
                    == dependency_positions(process_views(processes@), processes@[i as int]@),
            forall|i: int, k: int|
                0 <= i < index && 0 <= k < indices@[i].len() ==> #[trigger] indices@[i]@[k]
                    < processes.len(),
        decreases processes.len() - index,
    {
        match resolve_dependencies(processes, index) {
            Ok(positions) => {
                indices.push(positions);
            },
            Err(error) => {
                return Err(error);
            },
        }
        index = index + 1;
    }
    proof {
        assert(edges(indices@) =~= dependency_graph(process_views(processes@))) by {
            assert forall|i: int| 0 <= i < processes.len() implies #[trigger] edges(indices@)[i]
                == dependency_graph(process_views(processes@))[i] by {
                assert(indices@[i]@.map_values(|p: usize| p as int) == dependency_positions(process_views(processes@), processes@[i as int]@,
                ));
            }
        }
        assert(closed_graph(edges(indices@))) by {
            assert forall|i: int, k: int|
                0 <= i < edges(indices@).len() && 0 <= k < edges(indices@)[i].len() implies 0
                <= #[trigger] edges(indices@)[i][k] < edges(indices@).len() by {
                assert(edges(indices@)[i][k] == indices@[i]@[k] as int);
            }
        }
    }
    match find_dependency_cycle(processes, &indices) {
        Some(path) => Err(ProjectError::DependencyCycle(path)),
        None => Ok(indices),
    }
}

/// A validated set of Processes with its resolved Dependency positions.
pub open spec fn valid_set(processes: Seq<ProcessView>, indices: Seq<Vec<usize>>) -> bool {
    &&& project_fault(processes) is None
    &&& edges(indices) == dependency_graph(processes)
    &&& closed_graph(edges(indices))
    &&& exists|order: Seq<int>| startup_order(dependency_graph(processes), order)
}

/// One selectable set of Processes as mathematical values: the profile that
/// selects it (`None` is base), its Processes, and the profile label of each.
pub struct ProcessSet {
    pub profile: Option<Seq<char>>,
    pub processes: Seq<ProcessView>,
    pub labels: Seq<Option<Seq<char>>>,
}

/// Optional texts as characters.
pub open spec fn optional_texts(values: Seq<Option<String>>) -> Seq<Option<Seq<char>>> {
    values.map_values(|value: Option<String>| optional_text(value))
}

/// Processes resolved for one named profile, with the label of the profile
/// that each Process takes for its next Run.
pub struct ResolvedProfile {
    pub name: String,
    pub processes: Vec<ProcessSpec>,
    pub labels: Vec<Option<String>>,
}

impl View for ResolvedProfile {
    type V = ProcessSet;

    open spec fn view(&self) -> ProcessSet {
        ProcessSet {
            profile: Some(self.name@),
            processes: process_views(self.processes@),
            labels: optional_texts(self.labels@),
        }
    }
}

/// Resolved profiles as mathematical values.
pub open spec fn profile_sets(profiles: Seq<ResolvedProfile>) -> Seq<ProcessSet> {
    profiles.map_values(|profile: ResolvedProfile| profile@)
}

/// The first fault among named profiles from entry `from`.
pub open spec fn profiles_fault(profiles: Seq<ProcessSet>, from: int) -> Option<ProjectFault>
    decreases profiles.len() - from,
{
    if from < 0 || from >= profiles.len() {
        None
    } else {
        match project_fault(profiles[from].processes) {
            Some(fault) => Some(
                ProjectFault::InvalidProcessProfileGraph {
                    profile: profiles[from].profile->0,
                    source: Box::new(fault),
                },
            ),
            None => profiles_fault(profiles, from + 1),
        }
    }
}

/// The profiles that a Project can select, in their stable order.
pub open spec fn selectable(sets: Seq<ProcessSet>) -> Seq<Option<Seq<char>>> {
    sets.map_values(|set: ProcessSet| set.profile)
}

/// One validated set with its Dependency positions.
#[derive(Debug)]
struct Selection {
    profile: Option<String>,
    processes: Vec<ProcessSpec>,
    labels: Vec<Option<String>>,
    dependency_indices: Vec<Vec<usize>>,
}

impl Selection {
    spec fn set(self) -> ProcessSet {
        ProcessSet {
            profile: optional_text(self.profile),
            processes: process_views(self.processes@),
            labels: optional_texts(self.labels@),
        }
    }

    spec fn wf(self) -> bool {
        &&& valid_set(process_views(self.processes@), self.dependency_indices@)
        &&& self.labels.len() == self.processes.len()
    }
}

/// The validated set of Processes for one Stackhand session. Process order
/// is stable for the session, whatever profile is selected.
#[derive(Debug)]
pub struct EffectiveProject {
    /// The base set first, then one set for each named profile.
    selections: Vec<Selection>,
    selected: usize,
    /// The named profiles, in the order of their sets.
    profile_names: Vec<String>,
    shell: ShellConfig,
    groups: Vec<Option<String>>,
    base_profile_name: String,
    port_discovery: bool,
}

impl EffectiveProject {
    /// Every selectable set of Processes, base first.
    pub closed spec fn sets(&self) -> Seq<ProcessSet> {
        self.selections@.map_values(|selection: Selection| selection.set())
    }

    /// The position of the selected set.
    pub closed spec fn chosen(&self) -> int {
        self.selected as int
    }

    /// The launcher for shell expressions.
    pub closed spec fn launcher(&self) -> crate::model::ShellView {
        self.shell@
    }

    /// The Process Group of each Process.
    pub closed spec fn grouping(&self) -> Seq<Option<Seq<char>>> {
        optional_texts(self.groups@)
    }

    /// The visible name of the base selection.
    pub closed spec fn base_name(&self) -> Seq<char> {
        self.base_profile_name@
    }

    /// Whether listening ports are looked up.
    pub closed spec fn discovers_ports(&self) -> bool {
        self.port_discovery
    }

    /// The selected set.
    pub open spec fn current(&self) -> ProcessSet {
        self.sets()[self.chosen()]
    }

    /// Everything but which set is selected.
    pub open spec fn same_configuration(&self, other: &Self) -> bool {
        &&& self.sets() == other.sets()
        &&& self.launcher() == other.launcher()
        &&& self.grouping() == other.grouping()
        &&& self.base_name() == other.base_name()
        &&& self.discovers_ports() == other.discovers_ports()
    }

    /// What holds of every Project: one set is selected, the base set comes
    /// first, every set is valid, and all sets hold the same Processes by name.
    pub open spec fn wf(&self) -> bool {
        &&& self.representation_holds()
        &&& 0 <= self.chosen() < self.sets().len()
        &&& self.sets()[0].profile is None
        &&& forall|k: int| 0 < k < self.sets().len() ==> (#[trigger] self.sets()[k]).profile is Some
        &&& selectable(self.sets()).no_duplicates()
        &&& forall|k: int|
            0 <= k < self.sets().len() ==> {
                &&& project_fault((#[trigger] self.sets()[k]).processes) is None
                &&& names(self.sets()[k].processes) == names(self.sets()[0].processes)
                &&& self.sets()[k].labels.len() == self.sets()[k].processes.len()
            }
        &&& self.grouping().len() == self.sets()[0].processes.len()
    }

    /// The stored parts agree with each other.
    pub closed spec fn representation_holds(&self) -> bool {
        &&& forall|k: int| 0 <= k < self.selections.len() ==> (#[trigger] self.selections@[k]).wf()
        &&& self.profile_names.len() + 1 == self.selections.len()
        &&& forall|k: int|
            0 <= k < self.profile_names.len() ==> optional_text(self.selections@[k + 1].profile)
                == Some((#[trigger] self.profile_names@[k])@)
    }

    /// Build one Project with the standard shell.
    pub fn new(processes: Vec<ProcessSpec>) -> (r: Result<Self, ProjectError>)
        ensures
            match r {
                Ok(project) => {
                    &&& project_fault(process_views(processes@)) is None
                    &&& project.built_from(processes@, ShellConfig::standard())
                },
                Err(error) => project_fault(process_views(processes@)) == Some(fault_of(error)),
            },
    {
        Self::with_shell(processes, ShellConfig::default())
    }

    /// A Project with these Processes, no profile and standard settings.
    pub open spec fn built_from(
        &self,
        processes: Seq<ProcessSpec>,
        shell: crate::model::ShellView,
    ) -> bool {
        &&& self.wf()
        &&& self.sets() == seq![
            ProcessSet {
                profile: None,
                processes: process_views(processes),
                labels: Seq::new(processes.len(), |i: int| None::<Seq<char>>),
            },
        ]
        &&& self.chosen() == 0
        &&& self.launcher() == shell
        &&& self.grouping() == Seq::new(processes.len(), |i: int| None::<Seq<char>>)
        &&& self.base_name() == "base"@
        &&& !self.discovers_ports()
    }

    /// Build one Project with a validated shell launcher.
    pub fn with_shell(processes: Vec<ProcessSpec>, shell: ShellConfig) -> (r: Result<
        Self,
        ProjectError,
    >)
        ensures
            match r {
                Ok(project) => {
                    &&& project_fault(process_views(processes@)) is None
                    &&& project.built_from(processes@, shell@)
                },
                Err(error) => project_fault(process_views(processes@)) == Some(fault_of(error)),
            },
    {
        let dependency_indices = match validate(&processes) {
            Ok(indices) => indices,
            Err(error) => {
                return Err(error);
            },
        };
        let labels = no_texts(processes.len());
        let groups = no_texts(processes.len());
        let ghost views = process_views(processes@);
        let selection = Selection { profile: None, processes, labels, dependency_indices };
        let mut selections: Vec<Selection> = Vec::new();
        selections.push(selection);
        let project = EffectiveProject {
            selections,
            selected: 0,
            profile_names: Vec::new(),
            shell,
            groups,
            base_profile_name: "base".to_owned(),
            port_discovery: false,
        };
        proof {
            assert(project.sets() =~= seq![selection.set()]);
            assert(selectable(project.sets()) =~= seq![None::<Seq<char>>]);
        }
        Ok(project)
    }

    /// Build one Project from its base Processes and the Processes that every
    /// named profile resolves to, then select the initial profile for future
    /// Runs.
    pub fn with_resolved_profiles(
        base: Vec<ProcessSpec>,
        base_labels: Vec<Option<String>>,
        profiles: Vec<ResolvedProfile>,
        selected: Option<&str>,
        shell: ShellConfig,
    ) -> (r: Result<Self, ProjectError>)
        requires
            base_labels.len() == base.len(),
            forall|k: int|
                0 <= k < profiles.len() ==> {
                    &&& names(process_views((#[trigger] profiles@[k]).processes@)) == names(
                        process_views(base@),
                    )
                    &&& profiles@[k].labels.len() == profiles@[k].processes.len()
                },
            selectable(profile_sets(profiles@)).no_duplicates(),
            selected is Some ==> selectable(profile_sets(profiles@)).contains(Some(selected->0@)),
        ensures
            match r {
                Ok(project) => {
                    &&& project_fault(process_views(base@)) is None
                    &&& profiles_fault(profile_sets(profiles@), 0) is None
                    &&& project.wf()
                    &&& project.sets() == seq![
                        ProcessSet {
                            profile: None,
                            processes: process_views(base@),
                            labels: optional_texts(base_labels@),
                        },
                    ] + profile_sets(profiles@)
                    &&& project.current().profile == (match selected {
                        Some(name) => Some(name@),
                        None => None,
                    })
                    &&& project.launcher() == shell@
                    &&& project.grouping() == Seq::new(base@.len(), |i: int| None::<Seq<char>>)
                    &&& project.base_name() == "base"@
                    &&& !project.discovers_ports()
                },
                Err(error) => Some(fault_of(error)) == (match project_fault(process_views(base@)) {
                    Some(fault) => Some(fault),
                    None => profiles_fault(profile_sets(profiles@), 0),
                }),
            },
    {
        let ghost base_view = process_views(base@);
        let ghost base_set = ProcessSet {
            profile: None,
            processes: base_view,
            labels: optional_texts(base_labels@),
        };
        let ghost given = profile_sets(profiles@);
        let base_indices = match validate(&base) {
            Ok(indices) => indices,
            Err(error) => {
                return Err(error);
            },
        };
        let groups = no_texts(base.len());
        let mut selections: Vec<Selection> = Vec::new();
        selections.push(
            Selection {
                profile: None,
                processes: base,
                labels: base_labels,
                dependency_indices: base_indices,
            },
        );
        let ghost mut sets: Seq<ProcessSet> = seq![base_set];
        proof {
            assert(selections@.map_values(|s: Selection| s.set()) =~= sets);
        }
        let mut profile_names: Vec<String> = Vec::new();
        let mut rest = profiles;
        let mut reversed: Vec<ResolvedProfile> = Vec::new();
        while rest.len() > 0
            invariant
                rest@ + reversed@.reverse() == profiles@,
            decreases rest.len(),
        {
            let ghost earlier = reversed@;
            let ghost before = rest@;
            let last = rest.pop().unwrap();
            reversed.push(last);
            proof {
                assert(before =~= rest@.push(last));
                assert(reversed@.reverse() =~= seq![last] + earlier.reverse());
                assert(rest@ + reversed@.reverse() =~= before + earlier.reverse());
            }
        }
        proof {
            assert(rest@ + reversed@.reverse() =~= reversed@.reverse());
        }
        let mut selected_position: usize = 0;
        let ghost mut taken: int = 0;
        while reversed.len() > 0
            invariant
                0 <= taken <= profiles@.len(),
                reversed@.reverse() == profiles@.skip(taken),
                given == profile_sets(profiles@),
                base_view == base_set.processes,
                base_view == process_views(base@),
                base_set.labels.len() == base_view.len(),
                base_set.profile is None,
                project_fault(base_view) is None,
                profiles_fault(given, 0) == profiles_fault(given, taken),
                sets == seq![base_set] + given.take(taken),
                selections@.map_values(|s: Selection| s.set()) == sets,
                profile_names.len() == taken,
                selections.len() == taken + 1,
                optional_text(selections@[0].profile) is None,
                forall|k: int|
                    0 <= k < profile_names.len() ==> optional_text(selections@[k + 1].profile)
                        == Some((#[trigger] profile_names@[k])@),
                forall|k: int| 0 <= k < selections.len() ==> (#[trigger] selections@[k]).wf(),
                forall|k: int|
                    0 <= k < profiles@.len() ==> {
                        &&& names(process_views((#[trigger] profiles@[k]).processes@)) == names(
                            base_view,
                        )
                        &&& profiles@[k].labels.len() == profiles@[k].processes.len()
                    },
                forall|k: int|
                    0 <= k < sets.len() ==> {
                        &&& project_fault((#[trigger] sets[k]).processes) is None
                        &&& names(sets[k].processes) == names(base_view)
                        &&& sets[k].labels.len() == sets[k].processes.len()
                    },
                forall|k: int| 0 < k < sets.len() ==> (#[trigger] sets[k]).profile is Some,
                selected_position < selections.len(),
                match selected {
                    Some(name) => {
                        ||| sets[selected_position as int].profile == Some(name@)
                        ||| selected_position == 0 && forall|k: int|
                            0 <= k < taken ==> (#[trigger] given[k]).profile != Some(name@)
                    },
                    None => selected_position == 0,
                },
            decreases reversed.len(),
        {
            let ghost before = reversed@;
            let profile = reversed.pop().unwrap();
            proof {
                assert(before =~= reversed@.push(profile));
                assert(before.reverse() =~= seq![profile] + reversed@.reverse());
                assert(profiles@.skip(taken)[0] == profiles@[taken]);
                assert(profile == profiles@[taken]);
                assert(reversed@.reverse() =~= profiles@.skip(taken + 1)) by {
                    assert(profiles@.skip(taken) =~= seq![profiles@[taken]] + profiles@.skip(
                        taken + 1,
                    ));
                    assert(before.reverse().skip(1) =~= reversed@.reverse());
                    assert(profiles@.skip(taken).skip(1) =~= profiles@.skip(taken + 1));
                }
                assert(given[taken] == profile@);
            }
            let ResolvedProfile { name, processes, labels } = profile;
            let dependency_indices = match validate(&processes) {
                Ok(indices) => indices,
                Err(error) => {
                    let ghost inner = fault_of(error);
                    let failure = ProjectError::InvalidProcessProfileGraph {
                        profile: name,
                        source: Box::new(error),
                    };
                    proof {
                        reveal_with_fuel(fault_of, 2);
                        assert(fault_of(failure) == ProjectFault::InvalidProcessProfileGraph {
                            profile: given[taken].profile->0,
                            source: Box::new(inner),
                        });
                    }
                    return Err(failure);
                },
            };
            if let Some(wanted) = selected {
                if same_text(wanted, name.as_str()) {
                    selected_position = selections.len();
                }
            }
            profile_names.push(name.clone());
            let ghost earlier = selections@;
            let selection = Selection {
                profile: Some(name),
                processes,
                labels,
                dependency_indices,
            };
            selections.push(selection);
            proof {
                assert(selection.set() == profile@);
                assert(selections@.map_values(|s: Selection| s.set()) =~= earlier.map_values(
                    |s: Selection| s.set(),
                ).push(profile@));
                sets = sets.push(profile@);
                assert(given.take(taken + 1) =~= given.take(taken).push(given[taken]));
                assert(sets =~= seq![base_set] + given.take(taken + 1));
                taken = taken + 1;
            }
        }
        proof {
            assert(taken == profiles@.len()) by {
                assert(profiles@.skip(taken).len() == 0);
            }
            assert(given.take(taken) =~= given);
            if let Some(name) = selected {
                assert(selectable(given).contains(Some(name@)));
                let k = choose|k: int|
                    0 <= k < selectable(given).len() && selectable(given)[k] == Some(name@);
                assert(given[k].profile == Some(name@));
            }
        }
        let project = EffectiveProject {
            selections,
            selected: selected_position,
            profile_names,
            shell,
            groups,
            base_profile_name: "base".to_owned(),
            port_discovery: false,
        };
        proof {
            assert(project.sets() == sets);
            let all = selectable(sets);
            assert forall|i: int, j: int| 0 <= i < all.len() && 0 <= j < all.len() && i != j implies all[i] != all[j] by {
                let named = selectable(given);
                if i > 0 {
                    assert(all[i] == named[i - 1]);
                    assert(sets[i].profile is Some);
                }
                if j > 0 {
                    assert(all[j] == named[j - 1]);
                    assert(sets[j].profile is Some);
                }
            }
        }
        Ok(project)
    }
}

/// As many missing texts as asked for.
fn no_texts(count: usize) -> (r: Vec<Option<String>>)
    ensures
        r.len() == count,
        optional_texts(r@) == Seq::new(count as nat, |i: int| None::<Seq<char>>),
{
    let mut values: Vec<Option<String>> = Vec::new();
    while values.len() < count
        invariant
            values.len() <= count,
            forall|i: int| 0 <= i < values.len() ==> #[trigger] values@[i] is None,
        decreases count - values.len(),
    {
        values.push(None);
    }
    proof {
        assert(optional_texts(values@) =~= Seq::new(count as nat, |i: int| None::<Seq<char>>));
    }
    values
}

impl EffectiveProject {
    /// The Processes for the next Runs, in session order.
    pub fn processes(&self) -> (r: &Vec<ProcessSpec>)
        requires
            self.wf(),
        ensures
            process_views(r@) == self.current().processes,
    {
        &self.selections[self.selected].processes
    }

    /// The global profile selected for future Runs. `None` is base.
    pub fn selected_process_profile(&self) -> (r: Option<&str>)
        requires
            self.wf(),
        ensures
            self.current().profile == (match r {
                Some(name) => Some(name@),
                None => None,
            }),
    {
        match &self.selections[self.selected].profile {
            Some(name) => Some(name.as_str()),
            None => None,
        }
    }

    /// Every named profile in stable order.
    pub fn process_profile_names(&self) -> (r: &Vec<String>)
        requires
            self.wf(),
        ensures
            r.len() + 1 == self.sets().len(),
            forall|k: int|
                0 <= k < r.len() ==> self.sets()[k + 1].profile == Some((#[trigger] r@[k])@),
    {
        &self.profile_names
    }

    /// The effective profile label of one Process for the next Run. A fixed
    /// per-Process override wins over the global selection; `None` is base.
    pub fn process_profile(&self, index: usize) -> (r: Option<&str>)
        requires
            self.wf(),
        ensures
            (match r {
                Some(name) => Some(name@),
                None => None,
            }) == (if index < self.current().labels.len() {
                self.current().labels[index as int]
            } else {
                None
            }),
    {
        let labels = &self.selections[self.selected].labels;
        if index >= labels.len() {
            return None;
        }
        match &labels[index] {
            Some(name) => Some(name.as_str()),
            None => None,
        }
    }

    /// Select one global profile and replace the next-Run specifications and
    /// validated Dependency graph. A missing name leaves the current selection
    /// unchanged.
    pub fn select_process_profile(&mut self, profile: Option<&str>) -> (r: bool)
        requires
            old(self).wf(),
        ensures
            final(self).wf(),
            final(self).same_configuration(old(self)),
            r == selectable(old(self).sets()).contains(
                match profile {
                    Some(name) => Some(name@),
                    None => None,
                },
            ),
            r ==> final(self).current().profile == (match profile {
                Some(name) => Some(name@),
                None => None,
            }),
            !r ==> *final(self) == *old(self),
    {
        let ghost wanted = match profile {
            Some(name) => Some(name@),
            None => None,
        };
        let ghost all = selectable(self.sets());
        let position: usize = match profile {
            None => {
                proof {
                    assert(all[0] == wanted);
                }
                0
            },
            Some(name) => {
                let mut index: usize = 0;
                while index < self.profile_names.len() && !same_text(
                    self.profile_names[index].as_str(),
                    name,
                )
                    invariant
                        index <= self.profile_names.len(),
                        forall|k: int|
                            0 <= k < index ==> (#[trigger] self.profile_names@[k])@ != name@,
                    decreases self.profile_names.len() - index,
                {
                    index = index + 1;
                }
                if index == self.profile_names.len() {
                    proof {
                        assert forall|k: int| 0 <= k < all.len() implies all[k] != wanted by {
                            assert(all[k] == self.sets()[k].profile);
                            assert(self.sets()[k] == self.selections@[k].set());
                            if k > 0 {
                                assert(self.profile_names@[k - 1]@ != name@);
                            }
                        }
                    }
                    return false;
                }
                proof {
                    assert(self.sets()[index + 1] == self.selections@[index + 1].set());
                    assert(self.profile_names@[index as int]@ == name@);
                    assert(all[index + 1] == wanted);
                }
                index + 1
            },
        };
        self.selected = position;
        proof {
            assert(self.sets() =~= old(self).sets());
        }
        true
    }

    /// Return the Project's shell launcher for shell-expression commands.
    pub fn shell(&self) -> (r: &ShellConfig)
        ensures
            r@ == self.launcher(),
    {
        &self.shell
    }

    /// Resolve a user-facing Process name to its stable session position.
    pub fn process_index(&self, name: &str) -> (r: Option<usize>)
        requires
            self.wf(),
        ensures
            match r {
                Some(position) => names(self.current().processes).index_of_first(name@) == Some(
                    position as int,
                ),
                None => names(self.current().processes).index_of_first(name@) is None,
            },
    {
        position_of_name(&self.selections[self.selected].processes, name)
    }

    /// One Process's validated Dependencies in configuration order. Each item
    /// keeps the configured name and condition for diagnostics and adds the
    /// stable session position used by Project operations.
    pub fn resolved_dependencies(&self, index: usize) -> (r: Vec<(usize, &DependencySpec)>)
        requires
            self.wf(),
            index < self.current().processes.len(),
        ensures
            r.len() == self.current().processes[index as int].dependencies.len(),
            forall|k: int|
                0 <= k < r.len() ==> {
                    &&& (#[trigger] r@[k]).1@
                        == self.current().processes[index as int].dependencies[k]
                    &&& r@[k].0 as int == dependency_positions(
                        self.current().processes,
                        self.current().processes[index as int],
                    )[k]
                    &&& r@[k].0 < self.current().processes.len()
                    &&& self.current().processes[r@[k].0 as int].name == r@[k].1.name@
                },
    {
        let selection = &self.selections[self.selected];
        let ghost views = process_views(selection.processes@);
        proof {
            assert(selection.wf());
            assert(self.current() == selection.set());
            assert(edges(selection.dependency_indices@)[index as int]
                == dependency_graph(views)[index as int]);
            assert(dependency_graph(views)[index as int] == dependency_positions(
                views,
                views[index as int],
            ));
        }
        let positions = &selection.dependency_indices[index];
        let dependencies = &selection.processes[index].dependencies;
        let mut resolved: Vec<(usize, &DependencySpec)> = Vec::new();
        let mut entry: usize = 0;
        while entry < dependencies.len()
            invariant
                entry <= dependencies.len(),
                resolved.len() == entry,
                index < views.len(),
                views == process_views(selection.processes@),
                *dependencies == selection.processes@[index as int].dependencies,
                *positions == selection.dependency_indices@[index as int],
                positions@.map_values(|p: usize| p as int) == dependency_positions(
                    views,
                    views[index as int],
                ),
                valid_set(views, selection.dependency_indices@),
                forall|k: int|
                    0 <= k < entry ==> {
                        &&& (#[trigger] resolved@[k]).1@ == views[index as int].dependencies[k]
                        &&& resolved@[k].0 as int == dependency_positions(
                            views,
                            views[index as int],
                        )[k]
                        &&& resolved@[k].0 < views.len()
                        &&& views[resolved@[k].0 as int].name == resolved@[k].1.name@
                    },
            decreases dependencies.len() - entry,
        {
            proof {
                let mapped = positions@.map_values(|p: usize| p as int);
                assert(mapped.len() == dependencies@.len());
                assert(mapped[entry as int] == positions@[entry as int] as int);
                assert(edges(selection.dependency_indices@)[index as int][entry as int]
                    == positions@[entry as int] as int);
                known_dependency(views, index as int, entry as int);
            }
            resolved.push((positions[entry], &dependencies[entry]));
            entry = entry + 1;
        }
        resolved
    }

    /// The Process Group of one Process; `None` for an ungrouped Process.
    pub fn process_group(&self, index: usize) -> (r: Option<&str>)
        ensures
            (match r {
                Some(name) => Some(name@),
                None => None,
            }) == (if index < self.grouping().len() {
                self.grouping()[index as int]
            } else {
                None
            }),
    {
        if index >= self.groups.len() {
            return None;
        }
        match &self.groups[index] {
            Some(name) => Some(name.as_str()),
            None => None,
        }
    }

    /// The visible name of the base selection.
    pub fn base_profile_name(&self) -> (r: &str)
        ensures
            r@ == self.base_name(),
    {
        self.base_profile_name.as_str()
    }

    /// Whether Stackhand looks up the listening ports of the Processes.
    pub fn port_discovery(&self) -> (r: bool)
        ensures
            r == self.discovers_ports(),
    {
        self.port_discovery
    }

    /// Set the Project-wide presentation: the Process Group of each Process,
    /// the visible base name, and port discovery.
    pub fn with_presentation(
        self,
        groups: Vec<Option<String>>,
        base_profile_name: String,
        port_discovery: bool,
    ) -> (r: Self)
        requires
            self.wf(),
            groups.len() == self.current().processes.len(),
        ensures
            r.wf(),
            r.sets() == self.sets(),
            r.chosen() == self.chosen(),
            r.launcher() == self.launcher(),
            r.grouping() == optional_texts(groups@),
            r.base_name() == base_profile_name@,
            r.discovers_ports() == port_discovery,
    {
        proof {
            assert(names(self.current().processes).len() == self.current().processes.len());
            assert(names(self.sets()[0].processes).len() == self.sets()[0].processes.len());
        }
        let project = EffectiveProject {
            selections: self.selections,
            selected: self.selected,
            profile_names: self.profile_names,
            shell: self.shell,
            groups,
            base_profile_name,
            port_discovery,
        };
        proof {
            assert(project.sets() =~= self.sets());
        }
        project
    }
}

/// A Dependency without a fault resolves to the Process with its name.
proof fn known_dependency(processes: Seq<ProcessView>, index: int, entry: int)
    requires
        project_fault(processes) is None,
        0 <= index < processes.len(),
        0 <= entry < processes[index].dependencies.len(),
    ensures
        ({
            let position = dependency_positions(processes, processes[index])[entry];
            &&& 0 <= position < processes.len()
            &&& processes[position].name == processes[index].dependencies[entry].0
        }),
{
    no_process_fault(processes, 0, index);
    no_dependency_fault(processes, processes[index], 0, entry);
    names(processes).index_of_first_ensures(processes[index].dependencies[entry].0);
}

proof fn no_process_fault(processes: Seq<ProcessView>, from: int, index: int)
    requires
        processes_fault(processes, from) is None,
        0 <= from <= index < processes.len(),
    ensures
        process_fault(processes, processes[index]) is None,
    decreases index - from,
{
    if from < index {
        no_process_fault(processes, from + 1, index);
    }
}

proof fn no_dependency_fault(
    processes: Seq<ProcessView>,
    process: ProcessView,
    from: int,
    entry: int,
)
    requires
        dependencies_fault(processes, process, from) is None,
        0 <= from <= entry < process.dependencies.len(),
    ensures
        dependency_fault(processes, process, process.dependencies[entry]) is None,
    decreases entry - from,
{
    if from < entry {
        no_dependency_fault(processes, process, from + 1, entry);
    }
}

/// Every selectable set of a Project has a startup order: an order of all its
/// Processes in which each one comes after everything it depends on.
pub proof fn every_selection_can_start(project: EffectiveProject, selection: int)
    requires
        project.wf(),
        0 <= selection < project.sets().len(),
    ensures
        exists|order: Seq<int>|
            startup_order(dependency_graph(project.sets()[selection].processes), order),
{
    assert(project.selections@[selection].wf());
}

/// Selecting a profile never changes which Processes there are or their order.
pub proof fn selection_keeps_process_identity(project: EffectiveProject, a: int, b: int)
    requires
        project.wf(),
        0 <= a < project.sets().len(),
        0 <= b < project.sets().len(),
    ensures
        names(project.sets()[a].processes) == names(project.sets()[b].processes),
{
}

/// Names are unique in every selectable set.
pub proof fn names_are_unique(project: EffectiveProject, selection: int)
    requires
        project.wf(),
        0 <= selection < project.sets().len(),
    ensures
        names(project.sets()[selection].processes).no_duplicates(),
{
    no_repeats(names(project.sets()[selection].processes), 0);
}

proof fn no_repeats(all: Seq<Seq<char>>, from: int)
    requires
        0 <= from <= all.len(),
        repeated_name(all, from) is None,
        all.take(from).no_duplicates(),
    ensures
        all.no_duplicates(),
    decreases all.len() - from,
{
    if from < all.len() {
        let longer = all.take(from + 1);
        assert forall|i: int, j: int| 0 <= i < longer.len() && 0 <= j < longer.len() && i != j implies longer[i]
            != longer[j] by {
            if i < from && j < from {
                assert(all.take(from)[i] != all.take(from)[j]);
            } else if i == from {
                assert(all.take(from)[j] == longer[j]);
            } else {
                assert(all.take(from)[i] == longer[i]);
            }
        }
        no_repeats(all, from + 1);
    } else {
        assert(all.take(from) =~= all);
    }
}

/// Named specifications of one Process as mathematical values.
pub open spec fn variant_views(variants: Seq<(String, ProcessSpec)>) -> Seq<
    (Seq<char>, ProcessView),
> {
    variants.map_values(|variant: (String, ProcessSpec)| (variant.0@, variant.1@))
}

/// The names of the specifications.
pub open spec fn variant_names(variants: Seq<(Seq<char>, ProcessView)>) -> Seq<Seq<char>> {
    variants.map_values(|variant: (Seq<char>, ProcessView)| variant.0)
}

/// The profile label of one Process under a global selection. A fixed override
/// wins, and `base` is the reserved override for the base specification; a
/// selection counts only where the Process has a specification of that name.
pub open spec fn profile_label(
    variants: Seq<(Seq<char>, ProcessView)>,
    fixed: Option<Seq<char>>,
    selection: Option<Seq<char>>,
) -> Option<Seq<char>> {
    match fixed {
        Some(name) => if name == "base"@ {
            None
        } else {
            Some(name)
        },
        None => match selection {
            Some(name) => if variant_names(variants).contains(name) {
                Some(name)
            } else {
                None
            },
            None => None,
        },
    }
}

/// A fixed profile is the same whatever profile is selected.
pub proof fn fixed_profile_ignores_the_selection(
    variants: Seq<(Seq<char>, ProcessView)>,
    fixed: Seq<char>,
    a: Option<Seq<char>>,
    b: Option<Seq<char>>,
)
    ensures
        profile_label(variants, Some(fixed), a) == profile_label(variants, Some(fixed), b),
{
}

/// A Process without a fixed profile takes the base specification where it has
/// no variant of the selected profile.
pub proof fn missing_variant_takes_base(
    variants: Seq<(Seq<char>, ProcessView)>,
    selection: Seq<char>,
)
    requires
        !variant_names(variants).contains(selection),
    ensures
        profile_label(variants, None, Some(selection)) is None,
{
}

/// The specification with a label, or base where there is none.
pub open spec fn labelled_process(
    base: ProcessView,
    variants: Seq<(Seq<char>, ProcessView)>,
    label: Option<Seq<char>>,
) -> ProcessView {
    match label {
        Some(name) => match variant_names(variants).index_of_first(name) {
            Some(k) => variants[k].1,
            None => base,
        },
        None => base,
    }
}

/// The set of Processes that a global selection gives.
pub open spec fn set_for_selection(
    base: Seq<ProcessSpec>,
    variants: Seq<Vec<(String, ProcessSpec)>>,
    fixed: Seq<Option<String>>,
    selection: Option<Seq<char>>,
) -> ProcessSet {
    ProcessSet {
        profile: selection,
        processes: Seq::new(
            base.len(),
            |i: int|
                labelled_process(
                    base[i]@,
                    variant_views(variants[i]@),
                    profile_label(variant_views(variants[i]@), optional_text(fixed[i]), selection),
                ),
        ),
        labels: Seq::new(
            base.len(),
            |i: int|
                profile_label(variant_views(variants[i]@), optional_text(fixed[i]), selection),
        ),
    }
}

/// The sets of the named selections.
pub open spec fn sets_for_names(
    base: Seq<ProcessSpec>,
    variants: Seq<Vec<(String, ProcessSpec)>>,
    fixed: Seq<Option<String>>,
    selections: Seq<String>,
) -> Seq<ProcessSet> {
    selections.map_values(
        |name: String| set_for_selection(base, variants, fixed, Some(name@)),
    )
}

/// The first specification with this name.
pub fn find_variant(variants: &Vec<(String, ProcessSpec)>, name: &str) -> (r: Option<usize>)
    ensures
        match r {
            Some(k) => {
                &&& k < variants.len()
                &&& variant_names(variant_views(variants@)).index_of_first(name@) == Some(k as int)
            },
            None => variant_names(variant_views(variants@)).index_of_first(name@) is None,
        },
        r is Some <==> variant_names(variant_views(variants@)).contains(name@),
{
    let ghost all = variant_names(variant_views(variants@));
    proof {
        all.index_of_first_ensures(name@);
    }
    let mut index: usize = 0;
    while index < variants.len()
        invariant
            index <= variants.len(),
            all == variant_names(variant_views(variants@)),
            forall|i: int| 0 <= i < index ==> all[i] != name@,
            all.contains(name@) ==> {
                &&& all.index_of_first(name@) is Some
                &&& 0 <= all.index_of_first(name@)->0 < all.len()
                &&& all[all.index_of_first(name@)->0] == name@
                &&& forall|j: int| 0 <= j < all.index_of_first(name@)->0 ==> all[j] != name@
            },
            !all.contains(name@) ==> all.index_of_first(name@) is None,
        decreases variants.len() - index,
    {
        if same_text(variants[index].0.as_str(), name) {
            proof {
                assert(all[index as int] == name@);
            }
            return Some(index);
        }
        index = index + 1;
    }
    None
}

/// The label and the specification of one Process under a global selection.
fn choose_variant(
    base: &ProcessSpec,
    variants: &Vec<(String, ProcessSpec)>,
    fixed: &Option<String>,
    selection: Option<&str>,
) -> (r: (ProcessSpec, Option<String>))
    ensures
        ({
            let label = profile_label(
                variant_views(variants@),
                optional_text(*fixed),
                match selection {
                    Some(name) => Some(name@),
                    None => None,
                },
            );
            &&& optional_text(r.1) == label
            &&& r.0@ == labelled_process(base@, variant_views(variants@), label)
        }),
{
    let label: Option<String> = match fixed {
        Some(name) => if same_text(name.as_str(), "base") {
            None
        } else {
            Some(name.clone())
        },
        None => match selection {
            Some(name) => if find_variant(variants, name).is_some() {
                Some(name.to_owned())
            } else {
                None
            },
            None => None,
        },
    };
    let process = match &label {
        Some(name) => match find_variant(variants, name.as_str()) {
            Some(k) => variants[k].1.duplicate(),
            None => base.duplicate(),
        },
        None => base.duplicate(),
    };
    (process, label)
}

/// The Processes and labels that a global selection gives.
fn processes_for_selection(
    base: &Vec<ProcessSpec>,
    variants: &Vec<Vec<(String, ProcessSpec)>>,
    fixed: &Vec<Option<String>>,
    selection: Option<&str>,
) -> (r: (Vec<ProcessSpec>, Vec<Option<String>>))
    requires
        variants.len() == base.len(),
        fixed.len() == base.len(),
    ensures
        ({
            let set = set_for_selection(
                base@,
                variants@,
                fixed@,
                match selection {
                    Some(name) => Some(name@),
                    None => None,
                },
            );
            &&& process_views(r.0@) == set.processes
            &&& optional_texts(r.1@) == set.labels
            &&& r.0.len() == base.len()
            &&& r.1.len() == base.len()
        }),
{
    let ghost wanted = match selection {
        Some(name) => Some(name@),
        None => None,
    };
    let ghost set = set_for_selection(base@, variants@, fixed@, wanted);
    let mut processes: Vec<ProcessSpec> = Vec::new();
    let mut labels: Vec<Option<String>> = Vec::new();
    let mut index: usize = 0;
    while index < base.len()
        invariant
            index <= base.len(),
            variants.len() == base.len(),
            fixed.len() == base.len(),
            processes.len() == index,
            labels.len() == index,
            wanted == (match selection {
                Some(name) => Some(name@),
                None => None,
            }),
            set == set_for_selection(base@, variants@, fixed@, wanted),
            forall|i: int| 0 <= i < index ==> (#[trigger] processes@[i])@ == set.processes[i],
            forall|i: int|
                0 <= i < index ==> optional_text(#[trigger] labels@[i]) == set.labels[i],
        decreases base.len() - index,
    {
        let (process, label) = choose_variant(
            &base[index],
            &variants[index],
            &fixed[index],
            selection,
        );
        processes.push(process);
        labels.push(label);
        index = index + 1;
    }
    proof {
        assert(process_views(processes@) =~= set.processes);
        assert(optional_texts(labels@) =~= set.labels);
    }
    (processes, labels)
}

impl EffectiveProject {
    /// Attach every Process Profile, validate each selectable Dependency graph,
    /// then select the initial global profile for future Runs.
    pub fn with_process_profiles(
        processes: Vec<ProcessSpec>,
        process_profiles: Vec<Vec<(String, ProcessSpec)>>,
        process_profile_overrides: Vec<Option<String>>,
        selected_process_profile: Option<&str>,
        process_profile_names: Vec<String>,
        shell: ShellConfig,
    ) -> (r: Result<Self, ProjectError>)
        requires
            process_profiles.len() == processes.len(),
            process_profile_overrides.len() == processes.len(),
            forall|i: int, k: int|
                #![trigger process_profiles@[i]@[k]]
                0 <= i < processes.len() && 0 <= k < process_profiles@[i].len()
                    ==> process_profiles@[i]@[k].1.name@ == processes@[i].name@,
            texts(process_profile_names@).no_duplicates(),
            selected_process_profile is Some ==> texts(process_profile_names@).contains(
                selected_process_profile->0@,
            ),
        ensures
            ({
                let base = set_for_selection(
                    processes@,
                    process_profiles@,
                    process_profile_overrides@,
                    None,
                );
                let named = sets_for_names(
                    processes@,
                    process_profiles@,
                    process_profile_overrides@,
                    process_profile_names@,
                );
                match r {
                    Ok(project) => {
                        &&& project_fault(process_views(processes@)) is None
                        &&& project_fault(base.processes) is None
                        &&& profiles_fault(named, 0) is None
                        &&& project.wf()
                        &&& project.sets() == seq![base] + named
                        &&& project.current().profile == (match selected_process_profile {
                            Some(name) => Some(name@),
                            None => None,
                        })
                        &&& project.launcher() == shell@
                        &&& project.grouping() == Seq::new(
                            processes@.len(),
                            |i: int| None::<Seq<char>>,
                        )
                        &&& project.base_name() == "base"@
                        &&& !project.discovers_ports()
                    },
                    Err(error) => Some(fault_of(error)) == (match project_fault(
                        process_views(processes@),
                    ) {
                        Some(fault) => Some(fault),
                        None => match project_fault(base.processes) {
                            Some(fault) => Some(
                                ProjectFault::InvalidProcessProfileGraph {
                                    profile: "base"@,
                                    source: Box::new(fault),
                                },
                            ),
                            None => profiles_fault(named, 0),
                        },
                    }),
                }
            }),
    {
        let ghost base = set_for_selection(
            processes@,
            process_profiles@,
            process_profile_overrides@,
            None,
        );
        let ghost named = sets_for_names(
            processes@,
            process_profiles@,
            process_profile_overrides@,
            process_profile_names@,
        );
        if let Err(error) = validate(&processes) {
            return Err(error);
        }
        let (base_processes, base_labels) = processes_for_selection(
            &processes,
            &process_profiles,
            &process_profile_overrides,
            None,
        );
        if let Err(error) = validate(&base_processes) {
            let ghost inner = fault_of(error);
            let failure = ProjectError::InvalidProcessProfileGraph {
                profile: "base".to_owned(),
                source: Box::new(error),
            };
            proof {
                reveal_with_fuel(fault_of, 2);
                assert(fault_of(failure) == ProjectFault::InvalidProcessProfileGraph {
                    profile: "base"@,
                    source: Box::new(inner),
                });
            }
            return Err(failure);
        }
        let mut profiles: Vec<ResolvedProfile> = Vec::new();
        let mut index: usize = 0;
        while index < process_profile_names.len()
            invariant
                index <= process_profile_names.len(),
                profiles.len() == index,
                process_profiles.len() == processes.len(),
                process_profile_overrides.len() == processes.len(),
                named == sets_for_names(
                    processes@,
                    process_profiles@,
                    process_profile_overrides@,
                    process_profile_names@,
                ),
                forall|k: int| 0 <= k < index ==> (#[trigger] profiles@[k])@ == named[k],
                forall|k: int|
                    0 <= k < index ==> (#[trigger] profiles@[k]).labels.len()
                        == profiles@[k].processes.len(),
            decreases process_profile_names.len() - index,
        {
            let (resolved, labels) = processes_for_selection(
                &processes,
                &process_profiles,
                &process_profile_overrides,
                Some(process_profile_names[index].as_str()),
            );
            profiles.push(
                ResolvedProfile {
                    name: process_profile_names[index].clone(),
                    processes: resolved,
                    labels,
                },
            );
            index = index + 1;
        }
        proof {
            assert(profile_sets(profiles@) =~= named);
            variants_keep_names(
                processes@,
                process_profiles@,
                process_profile_overrides@,
                None,
            );
            assert forall|k: int| 0 <= k < profiles.len() implies {
                &&& names(process_views((#[trigger] profiles@[k]).processes@)) == names(
                    process_views(base_processes@),
                )
                &&& profiles@[k].labels.len() == profiles@[k].processes.len()
            } by {
                assert(profiles@[k]@ == named[k]);
                variants_keep_names(
                    processes@,
                    process_profiles@,
                    process_profile_overrides@,
                    Some(process_profile_names@[k]@),
                );
            }
            let all = selectable(named);
            assert forall|i: int, j: int| 0 <= i < all.len() && 0 <= j < all.len() && i != j implies all[i]
                != all[j] by {
                assert(texts(process_profile_names@)[i] != texts(process_profile_names@)[j]);
            }
            if let Some(name) = selected_process_profile {
                let k = choose|k: int|
                    0 <= k < texts(process_profile_names@).len() && texts(
                        process_profile_names@,
                    )[k] == name@;
                assert(all[k] == Some(name@));
            }
        }
        let built = Self::with_resolved_profiles(
            base_processes,
            base_labels,
            profiles,
            selected_process_profile,
            shell,
        );
        built
    }
}

/// Every selection keeps the Process names and their order.
proof fn variants_keep_names(
    base: Seq<ProcessSpec>,
    variants: Seq<Vec<(String, ProcessSpec)>>,
    fixed: Seq<Option<String>>,
    selection: Option<Seq<char>>,
)
    requires
        variants.len() == base.len(),
        forall|i: int, k: int|
            #![trigger variants[i]@[k]]
            0 <= i < base.len() && 0 <= k < variants[i].len() ==> variants[i]@[k].1.name@
                == base[i].name@,
    ensures
        names(set_for_selection(base, variants, fixed, selection).processes) == names(
            process_views(base),
        ),
{
    let set = set_for_selection(base, variants, fixed, selection);
    assert forall|i: int| 0 <= i < base.len() implies (#[trigger] set.processes[i]).name
        == base[i].name@ by {
        let views = variant_views(variants[i]@);
        let label = profile_label(views, optional_text(fixed[i]), selection);
        if let Some(name) = label {
            variant_names(views).index_of_first_ensures(name);
            if let Some(k) = variant_names(views).index_of_first(name) {
                assert(views[k].1 == variants[i]@[k].1@);
            }
        }
    }
    assert(names(set.processes) =~= names(process_views(base)));
}

} // verus!
