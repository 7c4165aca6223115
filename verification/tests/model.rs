use stackhand::model::{
    Autostart, CommandForm, DependencyCondition, DependencySpec, Enabled, InputPolicy, ProcessKind,
    ProcessSpec, ReadinessConfig, RestartConfig, RestartPolicy, ShellConfig, TerminalMode,
};
use stackhand::project::{EffectiveProject, ProjectError};

fn bare(name: &str) -> ProcessSpec {
    ProcessSpec {
        name: name.to_string(),
        kind: ProcessKind::Service,
        enabled: Enabled::Yes,
        autostart: Autostart::No,
        success_exit_codes: vec![0],
        restart: RestartConfig::default(),
        command: CommandForm::Direct {
            program: "sleep".to_string(),
            args: vec!["1".to_string()],
        },
        working_dir: "/tmp".to_string(),
        env: Vec::new(),
        env_remove: Vec::new(),
        terminal_mode: TerminalMode::Pipe,
        input_policy: InputPolicy::Disabled,
        dependencies: Vec::new(),
        readiness: None,
        liveness: None,
    }
}

fn depending_on(name: &str, dependencies: &[&str]) -> ProcessSpec {
    let mut spec = bare(name);
    spec.dependencies = dependencies
        .iter()
        .map(|dependency| DependencySpec {
            name: (*dependency).to_string(),
            condition: DependencyCondition::Started,
        })
        .collect();
    spec
}

fn fails(processes: Vec<ProcessSpec>) -> ProjectError {
    EffectiveProject::new(processes).err().expect("the Project is refused")
}

#[test]
fn model_unknown_dependency_references_are_rejected() {
    assert_eq!(
        fails(vec![depending_on("api", &["db"]), bare("worker")]),
        ProjectError::UnknownDependency {
            process: "api".to_string(),
            dependency: "db".to_string()
        }
    );
}

#[test]
fn dependency_cycles_are_rejected_with_the_cycle_path() {
    assert_eq!(
        fails(vec![
            depending_on("api", &["db"]),
            depending_on("db", &["worker"]),
            depending_on("worker", &["api"]),
        ]),
        ProjectError::DependencyCycle(vec![
            "api".to_string(),
            "db".to_string(),
            "worker".to_string(),
            "api".to_string()
        ])
    );
}

#[test]
fn a_self_dependency_is_a_cycle() {
    assert_eq!(
        fails(vec![depending_on("api", &["api"])]),
        ProjectError::DependencyCycle(vec!["api".to_string(), "api".to_string()])
    );
}

#[test]
fn completed_successfully_requires_a_one_shot_dependency() {
    let mut setup = bare("setup");
    setup.kind = ProcessKind::OneShot;
    let mut api = depending_on("api", &["setup"]);
    api.dependencies[0].condition = DependencyCondition::CompletedSuccessfully;

    assert!(EffectiveProject::new(vec![api.clone(), setup]).is_ok());

    assert_eq!(
        fails(vec![api, bare("setup")]),
        ProjectError::InvalidCondition {
            process: "api".to_string(),
            dependency: "setup".to_string(),
            condition: "completed_successfully".to_string(),
        }
    );
}

#[test]
fn acyclic_shared_dependencies_are_accepted() {
    let project = EffectiveProject::new(vec![
        depending_on("api", &["db"]),
        depending_on("worker", &["db"]),
        bare("db"),
    ])
    .ok()
    .expect("shared dependencies are valid");
    assert_eq!(project.processes().len(), 3);
}

#[test]
fn resolved_dependencies_keep_configuration_order_and_public_names() {
    let project = EffectiveProject::new(vec![
        depending_on("api", &["cache", "db"]),
        bare("db"),
        bare("cache"),
    ])
    .ok()
    .expect("the graph is valid");

    let dependencies = project
        .resolved_dependencies(project.process_index("api").expect("api is configured"))
        .into_iter()
        .map(|(index, dependency)| (index, dependency.name.as_str()))
        .collect::<Vec<_>>();
    assert_eq!(dependencies, [(2, "cache"), (1, "db")]);
    assert_eq!(project.processes()[0].name, "api");
}

#[test]
fn the_other_project_errors_name_their_process() {
    assert_eq!(
        fails(vec![bare("api"), bare("api")]),
        ProjectError::DuplicateName("api".to_string())
    );
    let mut job = bare("job");
    job.kind = ProcessKind::OneShot;
    job.readiness = Some(ReadinessConfig { checks: Vec::new(), startup_timeout: None });
    assert_eq!(
        fails(vec![job.clone()]),
        ProjectError::ReadinessOnOneShot { process: "job".to_string() }
    );
    job.readiness = None;
    job.restart.policy = RestartPolicy::Always;
    assert_eq!(
        fails(vec![job]),
        ProjectError::InvalidRestartPolicy {
            process: "job".to_string(),
            policy: "always".to_string()
        }
    );
}

#[test]
fn restart_policies_keep_their_spelling() {
    for policy in [RestartPolicy::Never, RestartPolicy::OnFailure, RestartPolicy::Always] {
        assert_eq!(RestartPolicy::from_label(policy.label()), Some(policy));
    }
    assert_eq!(RestartPolicy::from_label("sometimes"), None);
}

#[test]
fn attached_profiles_replace_base_specs_except_where_one_is_fixed() {
    let mut local = bare("api");
    local.working_dir = "/srv".to_string();
    let mut worker = bare("worker");
    worker.working_dir = "/srv".to_string();
    let project = EffectiveProject::with_process_profiles(
        vec![bare("api"), bare("worker")],
        vec![
            vec![("local".to_string(), local)],
            vec![("local".to_string(), worker)],
        ],
        vec![None, Some("base".to_string())],
        Some("local"),
        vec!["local".to_string()],
        ShellConfig { program: "/bin/sh".to_string(), args: vec!["-c".to_string()] },
    )
    .expect("a valid Project");
    assert_eq!(project.selected_process_profile(), Some("local"));
    assert_eq!(project.processes()[0].working_dir, "/srv");
    assert_eq!(project.process_profile(0), Some("local"));
    assert_eq!(project.processes()[1].working_dir, "/tmp");
    assert_eq!(project.process_profile(1), None);
    assert_eq!(project.process_group(0), None);
    assert_eq!(project.process_group(1), None);
    assert_eq!(project.base_profile_name(), "base");
    assert!(!project.port_discovery());
    assert!(EffectiveProject::with_process_profiles(
        vec![bare("api")],
        vec![vec![("local".to_string(), depending_on("api", &["db"]))]],
        vec![None],
        None,
        vec!["local".to_string()],
        ShellConfig { program: "/bin/sh".to_string(), args: vec!["-c".to_string()] },
    )
    .is_err());
}
