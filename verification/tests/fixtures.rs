use stackhand::cli::{parse_mode, single_profile, Argument, Mode};
use stackhand::config::load::ResolutionRequest;
use stackhand::console::{
    ConsoleInteraction, ConsolePaneKind, ConsoleStep, ConsoleViewMode, SelectionMove,
};
use stackhand::duration::Duration;
use stackhand::fixtures::checks::{
    backing_off, completed, failed_exit, liveness_passing, ready, running, startup_timed_out,
    waiting, Verdict,
};
use stackhand::fixtures::retained::{
    bytes_to_hex, has_marker, has_proof, last_tick, marker_count, max_tick, module_text,
    parse_number, prove_noisy_output, prove_restart_output, retained_bytes, retained_pid,
    retained_text, second_input_line_has_zero_three, OutputStream, RetainedChunk,
};
use stackhand::input::KeyCode;
use stackhand::interaction::Command;
use stackhand::interaction_fixture::{
    apply_move, check_begun, check_cleanup, check_console, check_ingest, check_pane, check_resize,
    check_selection, check_text, find_roles, has_started, index_of, key, key_of,
    move_selection_key, prove, prove_ingest, read_ticks, route_keys, text_of, ProofStep, Role,
    Ticks, PAGE_ROWS,
};
use stackhand::lifecycle_fixture::{
    check_rerun_output, prove_lifecycle, prove_metrics, prove_metrics_degradation, prove_rerun,
    FixtureProcesses, ScriptAction, ScriptAnswer,
};
use stackhand::model::{ProcessKind, TerminalMode};
use stackhand::output_pressure::{
    overdue_message, phase_limit, pressure_report, pressure_step, run_output_pressure_fixture,
    PressureObservation, PressurePhase, PressureStep, SeenOutput, COMMAND_DEADLINE, PHASE_WAIT,
};
use stackhand::process_logs::ProcessLogs;
use stackhand::project_fixture::{
    assert_startup_snapshot, check_shutdown, current_run, prove_console_output,
    prove_direct_output, prove_pipe_output, run, shutdown_complete, FixtureEnd, Slice,
    SliceAction, SlicePhase, SliceStep,
};
use stackhand::session::{
    run_discovered_project, run_discovered_project_with_profile, run_project,
    run_project_with_profile,
};
use stackhand::snapshot::{
    CheckKind, CheckState, CheckStatus, ChildCheck, DesiredState, FailureKind, FailureSummary,
    Lifecycle, Metrics, ProcessId, ProcessShutdownFailure, ProcessSnapshot,
    ProjectShutdownSnapshot, ProjectSnapshot, RestartBackoffStatus, RestartBudgetStatus, RunExit,
    RunSummary, RunTrigger,
};
use stackhand::terminal_script::{
    input_fixture_events, overdue_shows, run_fixture_input, run_fixture_mouse, run_fixture_paste,
    run_fixture_rendering, run_fixture_round_trip, PasteRejection, PasteState, Screen, Sight,
    TerminalAct, TerminalAnswer, TerminalScript, TerminalStep, BURST_LIMIT,
};
use stackhand::terminal_fixture::{
    assert_primary_render, check_event, check_round_trip_text, input_marker, mouse_marker,
    output_shows, read_backpressure, round_trip_shown, type_text, without_line_feeds, CellColor,
    CursorShape, RenderedCell, RenderedCursor, TerminalEvent,
};

fn process(name: &str) -> ProcessSnapshot {
    ProcessSnapshot {
        process_id: ProcessId::new(1),
        name: name.to_string(),
        group: None,
        kind: ProcessKind::Service,
        enabled: true,
        autostart: true,
        input_focused: false,
        desired: DesiredState::Running,
        lifecycle: Lifecycle::Running,
        terminal_mode: TerminalMode::Pty,
        current_run: Some(1),
        current_profile: None,
        next_profile: None,
        root_pid: Some(42),
        run_started_at_ms: Some(1_000),
        failure: None,
        metrics: None,
        listening_ports: None,
        blocked_reason: None,
        readiness: None,
        liveness: None,
        restart_backoff: None,
        automatic_restart_budget: RestartBudgetStatus {
            automatic_retries_used: 0,
            max_restarts: 2,
            exhausted: false,
        },
        recent_runs: Vec::new(),
    }
}

fn project(processes: Vec<ProcessSnapshot>) -> ProjectSnapshot {
    ProjectSnapshot {
        processes,
        base_profile_name: "base".to_string(),
        selected_profile: None,
        available_profiles: Vec::new(),
        shutdown: None,
        now_ms: 2_000,
    }
}

fn check(kind: CheckKind) -> Option<CheckStatus> {
    Some(CheckStatus {
        kind,
        state: CheckState::Passing,
        attempts: 1,
        consecutive_successes: 1,
        consecutive_failures: 0,
        last_error: None,
        elapsed_ms: 5,
        children: Vec::new(),
    })
}

fn summary(exit: RunExit, exit_code: Option<i32>) -> RunSummary {
    RunSummary {
        run_id: 1,
        trigger: RunTrigger::Autostart,
        exit,
        exit_code,
        intentional_stop: false,
    }
}

fn failure(kind: FailureKind, detail: &str) -> Option<FailureSummary> {
    Some(FailureSummary { kind, detail: detail.to_string() })
}

fn marker(run_id: u64) -> RetainedChunk {
    RetainedChunk::Marker { run_id, label: format!("run {run_id}") }
}

fn data(run_id: u64, text: &str) -> RetainedChunk {
    RetainedChunk::Data { run_id, stream: OutputStream::Stdout, text: text.to_string() }
}

fn arguments(words: &[&str]) -> Vec<Argument> {
    words.iter().map(|word| Argument { text: word.to_string(), valid: true }).collect()
}

fn texts(words: &[&str]) -> Vec<String> {
    words.iter().map(|word| word.to_string()).collect()
}

#[test]
fn command_lines_select_their_mode() {
    assert_eq!(
        parse_mode(&arguments(&[])),
        Ok(Mode::Project { path: None, profiles: Vec::new() })
    );
    assert_eq!(
        parse_mode(&arguments(&["dev.yaml", "--profile", "cloud", "--profile=local"])),
        Ok(Mode::Project {
            path: Some("dev.yaml".to_string()),
            profiles: texts(&["cloud", "local"]),
        })
    );
    assert_eq!(
        parse_mode(&arguments(&["config", "validate"])),
        Ok(Mode::ConfigValidate { path: None, profiles: Vec::new() })
    );
    assert_eq!(
        parse_mode(&arguments(&["config", "show", "--profile", "cloud", "dev.yaml"])),
        Ok(Mode::ConfigShow {
            path: Some("dev.yaml".to_string()),
            profiles: texts(&["cloud"]),
        })
    );
}

#[test]
fn unusable_command_lines_say_why() {
    assert_eq!(
        parse_mode(&arguments(&["--profile"])),
        Err("--profile requires a profile name".to_string())
    );
    assert_eq!(
        parse_mode(&arguments(&["--profile="])),
        Err("--profile requires a profile name".to_string())
    );
    assert_eq!(
        parse_mode(&arguments(&["--verbose"])),
        Err("unknown argument: --verbose".to_string())
    );
    let broken = vec![
        Argument { text: "--profile".to_string(), valid: true },
        Argument { text: "caf\u{fffd}".to_string(), valid: false },
    ];
    assert_eq!(parse_mode(&broken), Err("profile name must be valid UTF-8".to_string()));
    let twice = parse_mode(&arguments(&["one.yaml", "two.yaml"])).expect_err("one path is enough");
    assert!(twice.contains("accepts at most one Project path"), "{twice}");
}

fn named(request: &ResolutionRequest) -> String {
    match request {
        ResolutionRequest::Explicit { path, profile } => {
            format!("explicit {path} {}", profile.as_deref().unwrap_or("-"))
        }
        ResolutionRequest::Discover { start_dir, profile } => format!(
            "discover {} {}",
            start_dir.as_deref().unwrap_or("-"),
            profile.as_deref().unwrap_or("-")
        ),
    }
}

#[test]
fn sessions_run_the_project_they_name() {
    let report = |request: ResolutionRequest| Err(named(&request));
    assert_eq!(run_project("dev.yaml", report), Err("explicit dev.yaml -".to_string()));
    assert_eq!(
        run_project_with_profile("dev.yaml", Some("cloud"), report),
        Err("explicit dev.yaml cloud".to_string())
    );
    assert_eq!(run_discovered_project(report), Err("discover - -".to_string()));
    assert_eq!(
        run_discovered_project_with_profile(Some("cloud"), report),
        Err("discover - cloud".to_string())
    );
    assert_eq!(run_project("dev.yaml", |_request| Ok(())), Ok(()));
}

#[test]
fn retained_output_is_counted_and_searched() {
    let chunks = vec![
        marker(1),
        data(1, "ready pid=41\nécho"),
        RetainedChunk::Data {
            run_id: 2,
            stream: OutputStream::Stderr,
            text: "oops".to_string(),
        },
        marker(2),
    ];
    assert_eq!(retained_bytes(&chunks), 5 + 18 + 4 + 5);
    assert_eq!(marker_count(&chunks), 2);
    assert!(has_marker(&chunks, 2));
    assert!(!has_marker(&chunks, 3));
    assert!(has_proof(&chunks, 2, OutputStream::Stderr, "oops"));
    assert!(!has_proof(&chunks, 1, OutputStream::Stderr, "oops"));
    assert!(retained_text(&chunks, OutputStream::Stdout, "pid=", 1));
    assert_eq!(module_text(&chunks), "ready pid=41\nécho\noops");
    assert_eq!(retained_pid(&vec![data(1, "pid:7"), data(1, "pid:8")], "pid:"), Some(7));
}

#[test]
fn noisy_and_restarted_output_stay_in_their_bounds() {
    let noisy = vec![marker(1), data(1, "fixture-noisy 1")];
    assert_eq!(prove_noisy_output(&noisy, 20), Verdict::Met);
    assert_eq!(
        prove_noisy_output(&noisy, 19),
        Verdict::Failed("noisy Process output exceeded its bound: 20".to_string())
    );
    assert_eq!(
        prove_noisy_output(&vec![marker(1)], 20),
        Verdict::Failed("noisy Process output did not reach retained history".to_string())
    );
    let restarted = vec![marker(1), marker(2), marker(3)];
    assert_eq!(prove_restart_output(&restarted, 15), Verdict::Met);
    assert_eq!(
        prove_restart_output(&restarted, 14),
        Verdict::Failed("restart output exceeded its bound".to_string())
    );
    assert_eq!(
        prove_restart_output(&vec![marker(1), marker(2)], 15),
        Verdict::Failed("restart output lost Run boundaries".to_string())
    );
    assert_eq!(check_rerun_output(&vec![marker(1), marker(2), data(2, "oneoff-run ok")]), Verdict::Met);
    assert_eq!(
        check_rerun_output(&vec![marker(2), data(2, "oneoff-run ok")]),
        Verdict::Broken("both attempts must keep their Run marker inside the bounds".to_string())
    );
    assert_eq!(
        check_rerun_output(&vec![marker(1), marker(2)]),
        Verdict::Broken("the One-shot's output stays retained".to_string())
    );
}

#[test]
fn counters_and_bytes_are_read_from_output() {
    assert_eq!(parse_number("42"), Some(42));
    assert_eq!(parse_number("+7"), Some(7));
    assert_eq!(parse_number("4294967296"), None);
    assert_eq!(parse_number(""), None);
    assert_eq!(parse_number("4x"), None);
    let text = "tick-3 tick-11\ntick-9";
    assert_eq!(max_tick(text, "tick-"), Some(11));
    assert_eq!(last_tick(text, "tick-"), Some(9));
    assert_eq!(max_tick("quiet", "tick-"), None);
    assert!(second_input_line_has_zero_three("input-hex-1:78 input-hex-2:030d"));
    assert!(!second_input_line_has_zero_three("input-hex-1:03 input-hex-2:78"));
    assert_eq!(bytes_to_hex(&vec![0, 10, 255]), "000aff");
}

#[test]
fn process_states_are_recognised() {
    let mut done = process("done");
    done.lifecycle = Lifecycle::Done;
    done.current_run = None;
    done.recent_runs = vec![summary(RunExit::Success, Some(42))];
    let mut failed = process("failed");
    failed.lifecycle = Lifecycle::Stopped;
    failed.current_run = None;
    failed.failure = failure(FailureKind::ProcessExit, "exit 7");
    failed.recent_runs = vec![summary(RunExit::Failed { code: Some(7) }, Some(7))];
    let mut late = process("late");
    late.lifecycle = Lifecycle::Stopped;
    late.current_run = None;
    late.failure = failure(FailureKind::Readiness, "startup timeout after 1s");
    let mut waiter = process("waiter");
    waiter.lifecycle = Lifecycle::Waiting;
    let mut live = process("live");
    live.readiness = check(CheckKind::Tcp);
    live.liveness = check(CheckKind::Http);
    let mut retry = process("retry");
    retry.lifecycle = Lifecycle::RestartBackoff;
    retry.current_run = None;
    retry.restart_backoff =
        Some(RestartBackoffStatus { reason: "failed Run".to_string(), next_attempt_at_ms: 9 });
    let snapshot = project(vec![done, failed, late, waiter, live, retry.clone()]);
    assert!(running(&snapshot, "live"));
    assert!(!running(&snapshot, "waiter"));
    assert!(!running(&snapshot, "missing"));
    assert!(waiting(&snapshot, "waiter"));
    assert!(ready(&snapshot, "live", CheckKind::Tcp));
    assert!(!ready(&snapshot, "live", CheckKind::Http));
    assert!(liveness_passing(&snapshot, "live"));
    assert!(completed(&snapshot, "done", Some(42)));
    assert!(!completed(&snapshot, "done", Some(0)));
    assert!(failed_exit(&snapshot, "failed", Some(7)));
    assert!(startup_timed_out(&snapshot, "late"));
    assert!(!startup_timed_out(&snapshot, "failed"));
    assert!(backing_off(&retry, "failed Run"));
    assert!(!backing_off(&retry, "unhealthy Run"));
    assert_eq!(current_run(&snapshot, "live"), Ok(1));
    assert_eq!(
        current_run(&snapshot, "done"),
        Err(Verdict::Failed("Process 'done' has no current Run".to_string()))
    );
    assert_eq!(
        current_run(&snapshot, "missing"),
        Err(Verdict::Broken("the fixture defines Process 'missing'".to_string()))
    );
}

fn started_project() -> ProjectSnapshot {
    let mut processes: Vec<ProcessSnapshot> = Vec::new();
    for name in [
        "started-source",
        "started-dependent",
        "ready-dependent",
        "hello",
        "shelled",
        "piped",
        "noisy",
        "completed-dependent",
        "exited-dependent",
    ] {
        processes.push(process(name));
    }
    for (name, kind) in [
        ("tcp-ready", CheckKind::Tcp),
        ("http-ready", CheckKind::Http),
        ("exec-ready", CheckKind::Exec),
        ("log-ready", CheckKind::Log),
        ("all-ready", CheckKind::All),
        ("recovering", CheckKind::Http),
    ] {
        let mut service = process(name);
        service.readiness = check(kind);
        processes.push(service);
    }
    for name in ["liveness-recover", "liveness-restart"] {
        let mut service = process(name);
        service.liveness = check(CheckKind::Http);
        processes.push(service);
    }
    let mut accepted = process("accepted");
    accepted.lifecycle = Lifecycle::Done;
    accepted.desired = DesiredState::Stopped;
    accepted.current_run = None;
    accepted.recent_runs = vec![summary(RunExit::Success, Some(42))];
    processes.push(accepted);
    for name in ["exited-source", "rerun-setup"] {
        let mut failed = process(name);
        failed.lifecycle = Lifecycle::Stopped;
        failed.current_run = None;
        failed.failure = failure(FailureKind::ProcessExit, "exit 7");
        failed.recent_runs = vec![summary(RunExit::Failed { code: Some(7) }, Some(7))];
        processes.push(failed);
    }
    let mut rerun = process("rerun-dependent");
    rerun.lifecycle = Lifecycle::Waiting;
    rerun.current_run = None;
    rerun.blocked_reason = Some("rerun-setup: completed_successfully".to_string());
    processes.push(rerun);
    let mut late = process("startup-timeout");
    late.lifecycle = Lifecycle::Stopped;
    late.current_run = None;
    late.failure = failure(FailureKind::Readiness, "startup timeout");
    processes.push(late);
    let mut pending = process("shutdown-restart");
    pending.lifecycle = Lifecycle::RestartBackoff;
    pending.current_run = None;
    pending.restart_backoff =
        Some(RestartBackoffStatus { reason: "failed Run".to_string(), next_attempt_at_ms: 9 });
    pending.recent_runs = vec![summary(RunExit::Failed { code: Some(1) }, Some(1))];
    processes.push(pending);
    let mut manual = process("manual");
    manual.desired = DesiredState::Stopped;
    manual.lifecycle = Lifecycle::Idle;
    manual.current_run = None;
    processes.push(manual);
    let mut off = process("off");
    off.enabled = false;
    off.lifecycle = Lifecycle::Idle;
    off.current_run = None;
    processes.push(off);
    let mut snapshot = project(processes);
    let all = snapshot.processes.iter_mut().find(|process| process.name == "all-ready").unwrap();
    all.readiness.as_mut().unwrap().children = vec![
        ChildCheck { kind: CheckKind::Tcp, state: CheckState::Passing },
        ChildCheck { kind: CheckKind::Http, state: CheckState::Passing },
    ];
    snapshot
}

fn named_process<'a>(snapshot: &'a mut ProjectSnapshot, name: &str) -> &'a mut ProcessSnapshot {
    snapshot.processes.iter_mut().find(|process| process.name == name).expect("a known Process")
}

/// One phase ends: it waits on the snapshot before and answers the one after.
fn phase_ends(
    slice: &mut Slice,
    snapshot: &ProjectSnapshot,
    labels: &[&str],
    expected: SliceAction,
    next: SlicePhase,
) {
    let step = slice.prove_slice(snapshot);
    let SliceStep::Advance { checkpoints, action } = step else {
        panic!("the phase before {next:?} is over: {step:?}");
    };
    assert_eq!(checkpoints, labels);
    assert_eq!(action, expected);
    assert_eq!(slice.phase, next);
}

fn phase_waits(slice: &mut Slice, snapshot: &ProjectSnapshot) {
    let before = *slice;
    assert_eq!(slice.prove_slice(snapshot), SliceStep::Wait);
    assert_eq!(*slice, before);
}

#[test]
fn the_project_proof_walks_its_phases_in_order() {
    let mut slice = Slice::new();
    assert_eq!(slice.phase, SlicePhase::Blocked);
    assert_eq!(slice.phase_limit(), 20);
    phase_waits(&mut slice, &project(Vec::new()));
    let mut now = started_project();
    assert_eq!(assert_startup_snapshot(&now), Verdict::Met);
    let nothing = SliceAction::Nothing;
    phase_ends(&mut slice, &now, &["fixture-blocked-ok"], nothing, SlicePhase::Started);
    let mut early = started_project();
    named_process(&mut early, "startup-timeout").lifecycle = Lifecycle::Running;
    phase_waits(&mut slice, &early);
    early.processes.retain(|process| process.name != "shutdown-restart");
    phase_waits(&mut slice, &early);
    phase_ends(
        &mut slice,
        &now,
        &["fixture-started-ok"],
        SliceAction::ProveConsoleOutput,
        SlicePhase::ConsolesProved,
    );
    assert_eq!((slice.recovering_run, slice.dependent_run), (1, 1));
    phase_ends(
        &mut slice,
        &now,
        &["fixture-output-ok"],
        SliceAction::ProvePipeOutput,
        SlicePhase::PipesProved,
    );
    phase_ends(
        &mut slice,
        &now,
        &["fixture-pipe-output-ok"],
        SliceAction::ProveTimeoutExit,
        SlicePhase::TimeoutProved,
    );
    phase_ends(
        &mut slice,
        &now,
        &["fixture-startup-timeout-ok", "fixture-readiness-ready"],
        nothing,
        SlicePhase::ReadinessLost,
    );
    assert_eq!(slice.phase_limit(), 15);

    phase_waits(&mut slice, &now);
    let readiness = named_process(&mut now, "recovering").readiness.as_mut().unwrap();
    readiness.state = CheckState::Failing;
    readiness.last_error = Some("HTTP status 503".to_string());
    phase_ends(
        &mut slice,
        &now,
        &["fixture-readiness-failing"],
        nothing,
        SlicePhase::ReadinessBack,
    );
    phase_waits(&mut slice, &now);
    named_process(&mut now, "recovering").readiness = check(CheckKind::Http);
    phase_ends(
        &mut slice,
        &now,
        &["fixture-readiness-recovered", "fixture-liveness-ready"],
        nothing,
        SlicePhase::LivenessLost,
    );

    phase_waits(&mut slice, &now);
    let unhealthy = named_process(&mut now, "liveness-recover");
    unhealthy.liveness.as_mut().unwrap().state = CheckState::Failing;
    unhealthy.failure = failure(FailureKind::Liveness, "unhealthy");
    phase_ends(
        &mut slice,
        &now,
        &["fixture-liveness-failing"],
        nothing,
        SlicePhase::LivenessBack,
    );
    phase_waits(&mut slice, &now);
    let healthy = named_process(&mut now, "liveness-recover");
    healthy.liveness = check(CheckKind::Http);
    healthy.failure = None;
    phase_ends(
        &mut slice,
        &now,
        &["fixture-liveness-recovered", "fixture-unhealthy-restart-ready"],
        nothing,
        SlicePhase::UnhealthyBackoff,
    );

    phase_waits(&mut slice, &now);
    let stopped = named_process(&mut now, "liveness-restart");
    stopped.lifecycle = Lifecycle::RestartBackoff;
    stopped.current_run = None;
    stopped.restart_backoff =
        Some(RestartBackoffStatus { reason: "unhealthy".to_string(), next_attempt_at_ms: 9 });
    phase_ends(
        &mut slice,
        &now,
        &["fixture-unhealthy-restart-backoff"],
        nothing,
        SlicePhase::UnhealthyRestarted,
    );
    phase_waits(&mut slice, &now);
    let replaced = named_process(&mut now, "liveness-restart");
    replaced.lifecycle = Lifecycle::Running;
    replaced.current_run = Some(2);
    replaced.restart_backoff = None;
    replaced.automatic_restart_budget.automatic_retries_used = 1;
    phase_ends(
        &mut slice,
        &now,
        &["fixture-unhealthy-restart-recovered"],
        nothing,
        SlicePhase::BudgetSpent,
    );
    assert_eq!(slice.phase_limit(), 20);

    phase_waits(&mut slice, &now);
    let mut budget = process("budget");
    budget.lifecycle = Lifecycle::Stopped;
    budget.current_run = None;
    budget.failure = failure(FailureKind::RestartLimit, "Restart limit reached");
    budget.automatic_restart_budget =
        RestartBudgetStatus { automatic_retries_used: 2, max_restarts: 2, exhausted: true };
    budget.recent_runs = vec![
        summary(RunExit::Failed { code: Some(1) }, Some(1)),
        summary(RunExit::Failed { code: Some(1) }, Some(1)),
        summary(RunExit::Failed { code: Some(1) }, Some(1)),
    ];
    now.processes.push(budget);
    phase_ends(
        &mut slice,
        &now,
        &[],
        SliceAction::ProveRestartOutput,
        SlicePhase::BudgetProved,
    );
    phase_ends(
        &mut slice,
        &now,
        &["fixture-restart-budget-ok"],
        SliceAction::RerunSetup,
        SlicePhase::Rerun,
    );

    phase_waits(&mut slice, &now);
    let mut again = summary(RunExit::Success, Some(0));
    again.run_id = 2;
    again.trigger = RunTrigger::Rerun;
    let setup = named_process(&mut now, "rerun-setup");
    setup.lifecycle = Lifecycle::Done;
    setup.failure = None;
    setup.recent_runs.insert(0, again);
    let dependent = named_process(&mut now, "rerun-dependent");
    dependent.lifecycle = Lifecycle::Running;
    dependent.current_run = Some(1);
    dependent.blocked_reason = None;
    phase_ends(
        &mut slice,
        &now,
        &["fixture-rerun-recovered"],
        SliceAction::Finish,
        SlicePhase::Finished,
    );
    phase_ends(&mut slice, &now, &[], SliceAction::Finish, SlicePhase::Finished);
}

#[test]
fn the_project_proof_stops_where_a_phase_went_wrong() {
    let mut now = started_project();
    let mut slice = Slice::new();
    slice.phase = SlicePhase::ReadinessLost;
    slice.recovering_run = 1;
    slice.dependent_run = 1;
    let readiness = named_process(&mut now, "recovering").readiness.as_mut().unwrap();
    readiness.state = CheckState::Failing;
    assert_eq!(
        slice.prove_slice(&now),
        SliceStep::Stop(Verdict::Failed(
            "readiness loss did not retain the endpoint diagnostic".to_string()
        ))
    );
    let readiness = named_process(&mut now, "recovering").readiness.as_mut().unwrap();
    readiness.last_error = Some("503".to_string());
    named_process(&mut now, "ready-dependent").current_run = Some(2);
    assert_eq!(
        slice.prove_slice(&now),
        SliceStep::Stop(Verdict::Failed(
            "readiness loss stopped an already-running dependent".to_string()
        ))
    );
    assert_eq!(slice.phase, SlicePhase::ReadinessLost);
    let mut late = Slice::new();
    late.phase = SlicePhase::UnhealthyRestarted;
    named_process(&mut now, "liveness-restart").current_run = Some(2);
    assert_eq!(
        late.prove_slice(&now),
        SliceStep::Stop(Verdict::Broken("the replacement is the first automatic retry".to_string()))
    );
}

#[test]
fn the_project_proof_stops_at_a_process_that_the_fixture_lacks() {
    let lacking = |name: &str| {
        let mut snapshot = started_project();
        snapshot.processes.retain(|process| process.name != name);
        snapshot
    };
    let stop = |name: &str| {
        SliceStep::Stop(Verdict::Broken(format!("the fixture defines Process '{name}'")))
    };
    let mut slice = Slice::new();
    slice.phase = SlicePhase::Started;
    assert_eq!(slice.prove_slice(&project(Vec::new())), stop("started-source"));
    for name in ["tcp-ready", "liveness-restart", "accepted", "exited-source", "startup-timeout"] {
        assert_eq!(slice.prove_slice(&lacking(name)), stop(name));
    }
    assert_eq!(slice.phase, SlicePhase::Started);
    phase_waits(&mut slice, &lacking("shutdown-restart"));

    let mut snapshot = lacking("startup-timeout");
    named_process(&mut snapshot, "hello").current_run = None;
    phase_waits(&mut slice, &snapshot);
}

#[test]
fn a_started_project_is_checked_beyond_its_states() {
    let mut snapshot = started_project();
    snapshot.processes[0].run_started_at_ms = Some(5_000);
    assert_eq!(
        assert_startup_snapshot(&snapshot),
        Verdict::Failed("started dependency order was not preserved".to_string())
    );
    let mut snapshot = started_project();
    let manual = snapshot.processes.iter_mut().find(|process| process.name == "manual").unwrap();
    manual.current_run = Some(1);
    assert_eq!(
        assert_startup_snapshot(&snapshot),
        Verdict::Broken("a manual Process does not start by itself".to_string())
    );
}

#[test]
fn shutdown_is_checked_for_leftovers() {
    let mut snapshot = project(vec![process("shutdown-restart")]);
    assert!(!shutdown_complete(&snapshot));
    assert_eq!(check_shutdown(&snapshot), Verdict::Broken("shutdown completed".to_string()));
    snapshot.processes[0].recent_runs = vec![summary(RunExit::Stopped, None)];
    snapshot.shutdown =
        Some(ProjectShutdownSnapshot { complete: true, timed_out: false, failures: Vec::new() });
    assert!(shutdown_complete(&snapshot));
    assert_eq!(check_shutdown(&snapshot), Verdict::Met);
    snapshot.processes[0].restart_backoff =
        Some(RestartBackoffStatus { reason: "failed Run".to_string(), next_attempt_at_ms: 9 });
    assert_eq!(
        check_shutdown(&snapshot),
        Verdict::Failed(
            "Project shutdown left an automatic restart pending for shutdown-restart".to_string()
        )
    );
    snapshot.shutdown =
        Some(ProjectShutdownSnapshot { complete: true, timed_out: true, failures: Vec::new() });
    assert_eq!(
        check_shutdown(&snapshot),
        Verdict::Failed("Project shutdown reached its deadline".to_string())
    );
}

#[test]
fn the_project_fixture_reports_how_it_ended() {
    assert_eq!(run("dev.yaml", |_request| FixtureEnd::Clean), Ok("fixture-shutdown-ok"));
    assert_eq!(
        run("dev.yaml", |request| FixtureEnd::Configuration(named(&request))),
        Err("configuration error: explicit dev.yaml -".to_string())
    );
    assert_eq!(
        run("dev.yaml", |_request| FixtureEnd::DescendantRemained(77)),
        Err("ordinary descendant PID 77 remained after Project shutdown".to_string())
    );
    assert_eq!(
        run("dev.yaml", |_request| FixtureEnd::OutputRemained),
        Err("the Project output owner remained after shutdown".to_string())
    );
    assert_eq!(
        run("dev.yaml", |_request| FixtureEnd::Proof("late".to_string())),
        Err("late".to_string())
    );
}

#[test]
fn the_pressure_proof_waits_for_every_phase() {
    let mut quiet = process("quiet");
    quiet.lifecycle = Lifecycle::Starting;
    quiet.current_run = None;
    let mut snapshot = project(vec![process("noisy-0"), quiet]);
    let (phase, step) = pressure_step(PressurePhase::Starting, &snapshot, &vec![false]);
    assert!(matches!(phase, PressurePhase::Starting));
    assert!(matches!(step, PressureStep::Wait));
    snapshot.processes[1].lifecycle = Lifecycle::Running;
    let (_, step) = pressure_step(PressurePhase::Starting, &snapshot, &vec![false]);
    assert!(matches!(step, PressureStep::Stop(Verdict::Broken(_))));
    snapshot.processes[1].current_run = Some(1);
    let (phase, _) = pressure_step(PressurePhase::Starting, &snapshot, &vec![false]);
    assert!(matches!(phase, PressurePhase::Flooding));
    let (phase, step) = pressure_step(phase, &snapshot, &vec![true, false]);
    assert!(matches!(phase, PressurePhase::Flooding));
    assert!(matches!(step, PressureStep::Wait));
    let (phase, step) = pressure_step(phase, &snapshot, &vec![true, true]);
    assert!(matches!(phase, PressurePhase::Stopping));
    let PressureStep::Advance(commands) = step else {
        panic!("a flooded Project is commanded");
    };
    assert!(matches!(&commands[0], Command::Stop(name) if name == "quiet"));
    snapshot.processes[1].current_run = None;
    let (phase, step) = pressure_step(phase, &snapshot, &vec![true, true]);
    assert!(matches!(phase, PressurePhase::Draining));
    let PressureStep::Advance(commands) = step else {
        panic!("a stopped Process lets the Project stop");
    };
    assert!(matches!(&commands[0], Command::StopAll));
    let (phase, _) = pressure_step(phase, &snapshot, &vec![true, true]);
    assert!(matches!(phase, PressurePhase::Draining));
    snapshot.processes[0].current_run = None;
    let (phase, _) = pressure_step(phase, &snapshot, &vec![true, true]);
    assert!(matches!(phase, PressurePhase::Finished));
    assert_eq!(phase_limit(PressurePhase::Stopping), COMMAND_DEADLINE);
    assert_eq!(phase_limit(PressurePhase::Draining), PHASE_WAIT);
    assert_eq!(
        overdue_message(PressurePhase::Flooding, &vec![true, false]),
        "not every noisy Process truncated within the bound: [true, false]"
    );
}

fn observation() -> PressureObservation {
    PressureObservation {
        outputs: vec![
            Some(SeenOutput { truncated: true, chunks: vec![data(1, "12345")] }),
            None,
            Some(SeenOutput { truncated: false, chunks: vec![data(1, "1"), data(1, "2")] }),
        ],
        latency: Duration::from_millis(1_250),
    }
}

#[test]
fn pressure_reports_sum_up_what_was_seen() {
    let report = pressure_report(&observation());
    assert_eq!(report.noisy_processes, 3);
    assert_eq!(report.truncated_processes, 1);
    assert_eq!(report.max_retained_bytes, 5);
    assert_eq!(report.max_retained_chunks, 2);
    assert_eq!(report.command_latency_ms, 1_250);
}

#[test]
fn the_pressure_fixture_drives_a_valid_project() {
    let report = run_output_pressure_fixture("/tmp", |project| {
        let names: Vec<&str> =
            project.processes().iter().map(|process| process.name.as_str()).collect();
        assert_eq!(names, ["noisy-0", "noisy-1", "noisy-2", "quiet", "manual"]);
        assert_eq!(project.processes()[3].working_dir, "/tmp");
        Ok(observation())
    })
    .expect("the fixture reports");
    assert_eq!(report.max_retained_bytes, 5);
    let failed = run_output_pressure_fixture("/tmp", |_project| Err("late".to_string()));
    assert_eq!(failed.expect_err("the drive failed"), "late");
}

fn roles() -> FixtureProcesses {
    FixtureProcesses { focused: 0, mute: 1, piped: 2, oneoff: 3 }
}

fn interactive_project() -> ProjectSnapshot {
    let mut focused = process("focused");
    focused.input_focused = true;
    let mut piped = process("piped");
    piped.terminal_mode = TerminalMode::Pipe;
    let mut oneoff = process("oneoff");
    oneoff.kind = ProcessKind::OneShot;
    oneoff.lifecycle = Lifecycle::Idle;
    oneoff.current_run = None;
    project(vec![focused, process("mute"), piped, oneoff])
}

#[test]
fn lifecycle_proofs_take_one_step_at_a_time() {
    let mut snapshot = interactive_project();
    let mut script = prove_lifecycle(roles());
    assert_eq!(
        script.take(&snapshot, 0),
        Some(ScriptAnswer::Act(ScriptAction::Press('x')))
    );
    assert_eq!(script.take(&snapshot, 0), Some(ScriptAnswer::Wait));
    assert_eq!(script.at, 1);
    snapshot.processes[0].lifecycle = Lifecycle::Stopped;
    snapshot.processes[0].current_run = None;
    assert_eq!(script.take(&snapshot, 0), Some(ScriptAnswer::Done));
    assert_eq!(script.take(&snapshot, 0), Some(ScriptAnswer::Done));
    assert_eq!(
        script.take(&snapshot, 0),
        Some(ScriptAnswer::Act(ScriptAction::Press('s')))
    );
    snapshot.processes[0].lifecycle = Lifecycle::Running;
    snapshot.processes[0].current_run = Some(2);
    assert_eq!(script.take(&snapshot, 0), Some(ScriptAnswer::Done));
    assert_eq!(script.take(&snapshot, 0), Some(ScriptAnswer::Done));
    assert_eq!(script.remembered, 2);
    assert_eq!(
        script.take(&snapshot, 0),
        Some(ScriptAnswer::Act(ScriptAction::Press('r')))
    );
}

#[test]
fn rerun_and_metrics_proofs_follow_their_processes() {
    let mut snapshot = interactive_project();
    let mut rerun = prove_rerun(3);
    assert_eq!(
        rerun.take(&snapshot, 0),
        Some(ScriptAnswer::Repeat(ScriptAction::Move(SelectionMove::Down)))
    );
    assert_eq!(rerun.at, 0);
    assert_eq!(rerun.take(&snapshot, 3), Some(ScriptAnswer::Done));
    assert_eq!(rerun.take(&snapshot, 3), Some(ScriptAnswer::Act(ScriptAction::Press('s'))));
    let short = project(Vec::new());
    assert!(matches!(rerun.take(&short, 3), Some(ScriptAnswer::Stop(Verdict::Broken(_)))));

    let mut metrics = prove_metrics(0);
    assert_eq!(metrics.take(&snapshot, 0), Some(ScriptAnswer::Done));
    assert_eq!(metrics.take(&snapshot, 0), Some(ScriptAnswer::Done));
    assert_eq!(metrics.take(&snapshot, 0), Some(ScriptAnswer::Wait));
    snapshot.processes[0].metrics = Some(Metrics {
        run_id: 1,
        cpu: "0.1%".to_string(),
        rss_kib: 512,
        best_effort: false,
    });
    assert_eq!(metrics.take(&snapshot, 0), Some(ScriptAnswer::Done));

    let mut degraded = prove_metrics_degradation(0);
    assert_eq!(degraded.take(&snapshot, 0), Some(ScriptAnswer::Done));
    assert_eq!(degraded.remembered, 1);
    assert_eq!(
        degraded.take(&snapshot, 0),
        Some(ScriptAnswer::Act(ScriptAction::Restart(0)))
    );
}

#[test]
fn the_interaction_fixture_knows_its_processes() {
    let mut snapshot = interactive_project();
    assert_eq!(has_started(&snapshot), Ok(true));
    let found = find_roles(&snapshot).expect("every role is there");
    assert_eq!(found.focused, 0);
    assert_eq!(found.oneoff, 3);
    snapshot.processes[1].lifecycle = Lifecycle::Starting;
    assert_eq!(has_started(&snapshot), Ok(false));
    snapshot.processes[2].name = "other".to_string();
    assert_eq!(
        find_roles(&snapshot).expect_err("the pipe is missing"),
        "Process piped is part of the fixture contract"
    );
    snapshot.processes[1].lifecycle = Lifecycle::Running;
    assert_eq!(
        has_started(&snapshot),
        Err("the fixture contract changed: other".to_string())
    );
}

#[test]
fn the_interaction_script_holds_on_a_console() {
    let snapshot = interactive_project();
    let roles = roles();
    let mut console = ConsoleInteraction::default();
    let mut logs = ProcessLogs::default();
    let mut selected: usize = 0;
    let mut checkpoints: Vec<&str> = Vec::new();
    let mut answers: Vec<ConsoleStep> = Vec::new();
    for step in prove() {
        if let Some((role, event)) = key_of(&step) {
            let index = index_of(&roles, role);
            let pane = if role == Role::Piped {
                ConsolePaneKind::Pipe
            } else {
                ConsolePaneKind::Terminal
            };
            let focused = snapshot.processes[index].input_focused;
            answers = route_keys(&mut console, &mut logs, pane, focused, &vec![event]);
        }
        assert_eq!(check_pane(&step, &answers, &logs), Verdict::Met, "{step:?}");
        if let ProofStep::Move(direction, role) = step {
            apply_move(
                &mut console,
                &mut logs,
                ConsolePaneKind::Terminal,
                snapshot.processes[selected].input_focused,
                &mut selected,
                snapshot.processes.len(),
                direction,
            );
            assert_eq!(check_selection(selected, index_of(&roles, role)), Verdict::Met);
        }
        if let ProofStep::Checkpoint(label) = step {
            checkpoints.push(label);
        }
        let verdict = check_console(&step, &mut console, &snapshot, &roles);
        assert_eq!(verdict, Verdict::Met, "{step:?}");
    }
    assert_eq!(checkpoints[0], "interaction-input-ok");
    assert_eq!(checkpoints[checkpoints.len() - 1], "interaction-ingest-ok");
}

#[test]
fn the_interaction_script_looks_at_every_pipe_key() {
    let steps = prove();
    for (at, step) in steps.iter().enumerate() {
        if let Some((Role::Piped, _)) = key_of(step) {
            assert!(matches!(steps[at + 1], ProofStep::Taken(Role::Piped)), "{step:?}");
        }
    }
    let paged = steps.iter().position(|step| matches!(step, ProofStep::Paged(_))).unwrap();
    let follows = steps.iter().position(|step| matches!(step, ProofStep::Follows(_))).unwrap();
    assert!(paged < follows);

    let broken = |message: &str| Verdict::Broken(message.to_string());
    let mut logs = ProcessLogs::default();
    let taken = ProofStep::Taken(Role::Piped);
    assert_eq!(check_pane(&taken, &Vec::new(), &logs), broken("a key over the pane is taken"));
    assert_eq!(
        check_pane(&taken, &vec![ConsoleStep::Ignored], &logs),
        broken("a key over the pane is taken")
    );
    assert_eq!(check_pane(&taken, &vec![ConsoleStep::Changed(None)], &logs), Verdict::Met);
    assert_eq!(
        check_pane(&ProofStep::Paged(Role::Piped), &Vec::new(), &logs),
        broken("one pipe page moves the view one page above the tail")
    );
    logs.scroll_page(PAGE_ROWS, -1);
    assert_eq!(logs.lines_above_tail(), Some(19));
    assert_eq!(check_pane(&ProofStep::Paged(Role::Piped), &Vec::new(), &logs), Verdict::Met);
    assert_eq!(
        check_pane(&ProofStep::Follows(Role::Piped), &Vec::new(), &logs),
        broken("the pipe view follows its tail again")
    );
    logs.follow();
    assert_eq!(logs.lines_above_tail(), Some(0));
    assert_eq!(check_pane(&ProofStep::Follows(Role::Piped), &Vec::new(), &logs), Verdict::Met);
}

#[test]
fn the_interaction_script_looks_at_texts() {
    let tick = ProofStep::WaitTick(Role::Focused, 2);
    assert_eq!(text_of(&tick), Some(Role::Focused));
    assert_eq!(text_of(&ProofStep::ClearWarning), None);
    assert_eq!(check_text(&tick, "tick-1 tick-2"), Verdict::Met);
    assert_eq!(
        check_text(&tick, "tick-1"),
        Verdict::Failed("the console never reached tick-2".to_string())
    );
    let never = Verdict::Failed("the fixture proof never reached the console".to_string());
    let text = ProofStep::WaitText(Role::Mute, "mute-ready");
    assert_eq!(check_text(&text, "mute-ready"), Verdict::Met);
    assert_eq!(check_text(&text, "mute"), never);
    let interrupt = ProofStep::WaitInterrupt(Role::Focused);
    assert_eq!(check_text(&interrupt, "input-hex-2:030a"), Verdict::Met);
    assert_eq!(check_text(&interrupt, "input-hex-2:780a"), never);
    let absent = ProofStep::Absent(Role::Mute, "mute-input", "no input");
    assert_eq!(check_text(&absent, "mute-ready"), Verdict::Met);
    assert_eq!(check_text(&absent, "mute-input"), Verdict::Broken("no input".to_string()));
    let present = ProofStep::Present(Role::Mute, "mute-ready", "kept");
    assert_eq!(check_text(&present, "mute-ready"), Verdict::Met);
    assert_eq!(check_text(&present, ""), Verdict::Broken("kept".to_string()));
    assert_eq!(
        check_selection(1, 2),
        Verdict::Broken("the selection must move and clamp exactly like the app".to_string())
    );
    assert_eq!(check_resize(true), Verdict::Met);
    assert_eq!(
        check_resize(false),
        Verdict::Broken("a live terminal takes its size".to_string())
    );
}

#[test]
fn ingestion_counts_consoles_by_their_highest_and_pipes_by_their_last_tick() {
    let ticks = read_ticks("tick-4 tick-3", "tick-2", "pipe-tick-90 pipe-tick-1");
    assert_eq!(ticks, Ticks { focused: 4, mute: 2, piped: 1 });
    assert_eq!(read_ticks("", "", "tick-5"), Ticks { focused: 0, mute: 0, piped: 0 });
    assert_eq!(
        check_begun(ticks),
        Verdict::Failed("the pipe module never reached pipe-tick-2".to_string())
    );
    assert_eq!(
        check_begun(Ticks { focused: 1, mute: 2, piped: 1 }),
        Verdict::Failed("the console never reached tick-2".to_string())
    );
    assert_eq!(check_begun(Ticks { focused: 2, mute: 2, piped: 2 }), Verdict::Met);
}

#[test]
fn selection_keys_leave_the_console_first() {
    assert_eq!(
        move_selection_key(ConsoleViewMode::ProcessList, SelectionMove::Down),
        vec![key(KeyCode::Char('j'))]
    );
    let from_console = move_selection_key(ConsoleViewMode::Console, SelectionMove::Up);
    assert_eq!(from_console.len(), 2);
    assert_eq!(from_console[1], key(KeyCode::Char('k')));
}

#[test]
fn ingestion_and_cleanup_are_checked() {
    let moves = prove_ingest(roles());
    assert_eq!(moves[2], (SelectionMove::Down, 3));
    let before = Ticks { focused: 1, mute: 1, piped: 1 };
    assert_eq!(check_ingest(before, Ticks { focused: 2, mute: 2, piped: 2 }), Verdict::Met);
    assert_eq!(
        check_ingest(before, Ticks { focused: 2, mute: 1, piped: 2 }),
        Verdict::Broken(
            "selection moves stopped ingestion into the muted terminal".to_string()
        )
    );
    let mut snapshot = interactive_project();
    assert_eq!(check_cleanup(&snapshot, true), None);
    snapshot.processes[0].failure = failure(FailureKind::Shutdown, "pid 7 remained");
    assert_eq!(
        check_cleanup(&snapshot, true),
        Some("Process focused reported a cleanup failure: pid 7 remained".to_string())
    );
    assert_eq!(check_cleanup(&snapshot, false), None);
    snapshot.shutdown = Some(ProjectShutdownSnapshot {
        complete: true,
        timed_out: false,
        failures: vec![ProcessShutdownFailure {
            process: "focused".to_string(),
            detail: "pid 7 remained".to_string(),
            remaining_pids: vec![7],
        }],
    });
    assert_eq!(check_cleanup(&snapshot, true), Some("Project shutdown failures".to_string()));
}

#[test]
fn terminal_events_end_a_fixture() {
    let full = TerminalEvent::InputBackpressure {
        attempted_bytes: 9,
        pending_bytes: 60,
        limit_bytes: 64,
    };
    assert_eq!(check_event(&full, "input is full"), Some("input is full".to_string()));
    assert_eq!(
        read_backpressure(&full),
        Ok(Some("attempted 9 bytes with 60 of 64 pending".to_string()))
    );
    let failed = TerminalEvent::Failed("closed".to_string());
    assert_eq!(
        check_event(&failed, "input is full"),
        Some("terminal owner failed: closed".to_string())
    );
    assert_eq!(read_backpressure(&failed), Err("terminal owner failed: closed".to_string()));
    assert_eq!(check_event(&TerminalEvent::Exited, "input is full"), None);
    assert_eq!(read_backpressure(&TerminalEvent::StateChanged), Ok(None));
}

#[test]
fn wrapped_output_is_read_across_its_lines() {
    assert_eq!(without_line_feeds("in\nput\n"), "input");
    assert!(output_shows("input-by\ntes:0a", "input-bytes:0a"));
    assert!(!output_shows("input-bytes:0b", "input-bytes:0a"));
    assert_eq!(check_round_trip_text("hello"), Ok(()));
    assert_eq!(
        check_round_trip_text("two\nlines"),
        Err("fixture text must fit on one line".to_string())
    );
    assert!(round_trip_shown("fixture-echo:hello fixture-size:42x12", "hello"));
    assert!(!round_trip_shown("fixture-echo:hello", "hello"));
    assert_eq!(type_text("hi")[0], key(KeyCode::Char('h')));
    assert_eq!(input_marker(&vec![0x1b, 0x5b]), "input-bytes:1b5b");
    assert_eq!(mouse_marker(&vec![0x4d]), "mouse-bytes:4d");
}

fn cell(symbol: &str) -> RenderedCell {
    RenderedCell {
        symbol: symbol.to_string(),
        fg: CellColor::Reset,
        bold: false,
        dim: false,
        italic: false,
        underlined: false,
        reversed: false,
    }
}

fn rendered_row() -> Vec<RenderedCell> {
    let mut row: Vec<RenderedCell> = (0..11).map(|_| cell("x")).collect();
    row[0].fg = CellColor::Palette(1);
    row[1].fg = CellColor::Rgb(255, 95, 0);
    row[2].fg = CellColor::Rgb(1, 2, 3);
    row[3].bold = true;
    row[4].dim = true;
    row[5].italic = true;
    row[6].underlined = true;
    row[7].reversed = true;
    row[8] = cell("界");
    row[9] = cell(" ");
    row[10] = cell("e\u{301}");
    row
}

#[test]
fn rendered_rows_keep_their_styles() {
    let cursor = RenderedCursor { x: 4, y: 2, shape: CursorShape::Bar, blinking: false };
    assert_eq!(assert_primary_render(&rendered_row(), Some(cursor)), Ok(()));
    let mut pale = rendered_row();
    pale[0].fg = CellColor::Reset;
    assert_eq!(
        assert_primary_render(&pale, Some(cursor)),
        Err("16-color cell lost its color".to_string())
    );
    let mut thin = rendered_row();
    thin[3].bold = false;
    assert_eq!(
        assert_primary_render(&thin, Some(cursor)),
        Err("style modifier BOLD was not preserved".to_string())
    );
    assert_eq!(
        assert_primary_render(&rendered_row(), None),
        Err("visible cursor was missing".to_string())
    );
    let block = RenderedCursor { shape: CursorShape::Block, ..cursor };
    assert_eq!(
        assert_primary_render(&rendered_row(), Some(block)),
        Err("cursor shape changed".to_string())
    );
}

#[test]
fn output_proofs_name_their_runs() {
    let mut snapshot = started_project();
    let consoles = prove_console_output(&snapshot).expect("every console runs");
    let needles: Vec<&str> = consoles.iter().map(|found| found.needle).collect();
    assert_eq!(
        needles,
        ["fixture-marker", "fixture-token-stackhand-env-ok", "FIXTURE-PIPELINE-LOWER"]
    );
    assert!(consoles.iter().all(|found| found.run_id == 1 && found.stream.is_none()));
    let pipes = prove_pipe_output(&snapshot).expect("the pipe runs");
    assert_eq!(pipes[0].stream, Some(OutputStream::Stdout));
    assert_eq!(pipes[1].stream, Some(OutputStream::Stderr));
    assert_eq!(
        prove_direct_output(&snapshot),
        Err(Verdict::Broken("the fixture defines Process 'direct'".to_string()))
    );
    let mut direct = process("direct");
    snapshot.processes.push(direct.clone());
    assert_eq!(
        prove_direct_output(&snapshot),
        Err(Verdict::Failed("the direct One-shot has no Run summary".to_string()))
    );
    direct.recent_runs = vec![summary(RunExit::Success, Some(0))];
    snapshot.processes.pop();
    snapshot.processes.push(direct);
    let found = prove_direct_output(&snapshot).expect("the One-shot ran");
    assert_eq!(found.needle, "fixture-direct-command");
    snapshot.processes.retain(|process| process.name != "shelled");
    assert_eq!(
        prove_console_output(&snapshot),
        Err(Verdict::Broken("the fixture defines Process 'shelled'".to_string()))
    );
}

fn sight(text: &str) -> Sight {
    Sight {
        screen: Screen {
            text: text.to_string(),
            width: 80,
            height: 24,
            rows: Vec::new(),
            cursor: None,
            mouse_tracking: false,
        },
        events: Vec::new(),
        paste: PasteState::Unsent,
    }
}

fn acts(script: &mut TerminalScript, count: usize) -> Vec<TerminalAct> {
    (0..count)
        .map(|_| match script.take(&sight("")) {
            Some(TerminalAnswer::Act(act)) => act,
            other => panic!("the step is something to do: {other:?}"),
        })
        .collect()
}

#[test]
fn round_trips_type_one_line() {
    let mut script = run_fixture_round_trip("hi").expect("one line");
    assert_eq!(
        acts(&mut script, 3),
        vec![
            TerminalAct::Resize(42, 12),
            TerminalAct::Keys(type_text("hi")),
            TerminalAct::Keys(vec![key(KeyCode::Enter)]),
        ]
    );
    assert_eq!(script.take(&sight("fixture-echo:hi")), Some(TerminalAnswer::Wait));
    assert_eq!(
        script.take(&sight("fixture-echo:hi\nfixture-size:42x12")),
        Some(TerminalAnswer::Done)
    );
    assert_eq!(script.take(&sight("")), None);
    let refused = run_fixture_round_trip("a\rb");
    assert!(matches!(refused, Err(message) if message == "fixture text must fit on one line"));
}

#[test]
fn input_keys_are_found_as_bytes() {
    let mut script = run_fixture_input();
    assert!(!script.wants_events());
    assert_eq!(script.take(&sight("")), Some(TerminalAnswer::Wait));
    assert!(script.wants_events());
    let mut failed = sight("input-normal-ready");
    failed.events = vec![TerminalEvent::Failed("closed".to_string())];
    assert_eq!(
        script.take(&failed),
        Some(TerminalAnswer::Fail("terminal owner failed: closed".to_string()))
    );
    assert_eq!(script.take(&sight("input-normal-ready")), Some(TerminalAnswer::Done));
    assert_eq!(
        acts(&mut script, 2),
        vec![TerminalAct::Keys(vec![key(KeyCode::Up)]), TerminalAct::Bytes(vec![10])]
    );
    assert_eq!(
        script.take(&sight("input-ready")),
        Some(TerminalAnswer::FailShowing("normal cursor mode did not produce CSI A".to_string()))
    );
    assert_eq!(
        script.take(&sight("normal-bytes:1b5\nb41 input-ready")),
        Some(TerminalAnswer::Done)
    );
    assert_eq!(
        acts(&mut script, 4),
        vec![
            TerminalAct::Keys(input_fixture_events()),
            TerminalAct::Focus(true),
            TerminalAct::Focus(false),
            TerminalAct::Bytes(vec![10]),
        ]
    );
    assert_eq!(input_fixture_events().len(), 21);
    let expected = b"\x1b[4;1R\r\t\x7f\x1b\x1bOA\x1bOB\x1bOC\x1bOD\x1bOH\x1bOF\x1b[2~\x1b[3~\x1b[5~\x1b[6~\x1bOP\x1b[15~\x1b[24~x\x03\x1b[Z\x1b[1;5A\x1b[I\x1b[O";
    let marker = input_marker(&expected.to_vec());
    assert_eq!(script.take(&sight(&marker)), Some(TerminalAnswer::Noted(marker.clone())));
    assert_eq!(script.take(&sight(&marker)), None);
}

#[test]
fn pastes_are_delivered_refused_and_bounded() {
    let mut script = run_fixture_paste();
    assert_eq!(script.take(&sight("fixture-normal-ready")), Some(TerminalAnswer::Done));
    assert_eq!(acts(&mut script, 1), vec![TerminalAct::Paste("normal-paste".to_string())]);
    let mut waiting = sight("");
    waiting.paste = PasteState::Pending { id: 3 };
    assert_eq!(script.take(&waiting), Some(TerminalAnswer::Wait));
    waiting.paste = PasteState::Failed { id: 3, detail: "closed".to_string() };
    assert_eq!(
        script.take(&waiting),
        Some(TerminalAnswer::Fail("paste request 3 failed: closed".to_string()))
    );
    waiting.paste =
        PasteState::Rejected { kind: PasteRejection::Busy, detail: "busy".to_string() };
    assert_eq!(
        script.take(&waiting),
        Some(TerminalAnswer::Fail("normal paste was rejected: busy".to_string()))
    );
    waiting.paste = PasteState::Delivered;
    assert_eq!(script.take(&waiting), Some(TerminalAnswer::Done));
    assert_eq!(
        script.take(&sight("normal-bytes:6e6f726d616c2d7061737465")),
        Some(TerminalAnswer::Done)
    );
    assert_eq!(script.take(&sight("fixture-bracketed-ready")), Some(TerminalAnswer::Done));
    assert_eq!(acts(&mut script, 1), vec![TerminalAct::Paste("bracketed-paste".to_string())]);
    assert_eq!(script.take(&waiting), Some(TerminalAnswer::Done));
    assert_eq!(
        script.take(&sight("bracketed-bytes:62")),
        Some(TerminalAnswer::FailShowing("bracketed paste markers or bytes were changed".to_string()))
    );
    assert_eq!(
        script.take(&sight(
            "bracketed-bytes:1b5b3230307e627261636b657465642d70617374651b5b3230317e"
        )),
        Some(TerminalAnswer::Done)
    );
    assert_eq!(script.take(&sight("fixture-oversized-ready")), Some(TerminalAnswer::Done));
    assert_eq!(acts(&mut script, 1), vec![TerminalAct::PasteFilled('x', 1)]);
    assert_eq!(
        script.take(&waiting),
        Some(TerminalAnswer::Fail("oversized paste was accepted".to_string()))
    );
    waiting.paste =
        PasteState::Rejected { kind: PasteRejection::TooLarge, detail: "large".to_string() };
    assert_eq!(script.take(&waiting), Some(TerminalAnswer::Done));
    assert_eq!(acts(&mut script, 1), vec![TerminalAct::Bytes(b"SAFE".to_vec())]);
    assert_eq!(script.take(&sight("safe-bytes:53414645")), Some(TerminalAnswer::Done));
    waiting.paste = PasteState::Pending { id: 4 };
    for _ in 0..BURST_LIMIT {
        assert_eq!(
            script.take(&waiting),
            Some(TerminalAnswer::Repeat(TerminalAct::PasteFilled('b', 0)))
        );
    }
    assert_eq!(
        script.take(&waiting),
        Some(TerminalAnswer::Fail("blocked paste burst did not reach its bound".to_string()))
    );
    waiting.paste =
        PasteState::Rejected { kind: PasteRejection::Busy, detail: "busy".to_string() };
    assert_eq!(script.take(&waiting), Some(TerminalAnswer::Done));
    assert_eq!(script.take(&sight("")), Some(TerminalAnswer::Wait));
    let mut full = sight("");
    full.events = vec![
        TerminalEvent::StateChanged,
        TerminalEvent::InputBackpressure {
            attempted_bytes: 9,
            pending_bytes: 60,
            limit_bytes: 64,
        },
    ];
    assert_eq!(
        script.take(&full),
        Some(TerminalAnswer::Noted("attempted 9 bytes with 60 of 64 pending".to_string()))
    );
}

#[test]
fn screens_follow_each_other() {
    let mut script = run_fixture_rendering();
    let mut seen = sight("");
    assert!(script.wants_events());
    assert_eq!(script.take(&seen), Some(TerminalAnswer::Wait));
    let mut row = rendered_row();
    row[0].symbol = "R".to_string();
    seen.screen.rows = vec![row];
    seen.screen.cursor =
        Some(RenderedCursor { x: 4, y: 2, shape: CursorShape::Bar, blinking: false });
    assert_eq!(script.take(&seen), Some(TerminalAnswer::Done));
    acts(&mut script, 1);
    let mut alternate = sight("ALT");
    alternate.screen.rows = vec![vec![cell("A")]];
    assert_eq!(script.take(&alternate), Some(TerminalAnswer::Done));
    acts(&mut script, 1);
    assert_eq!(script.take(&alternate), Some(TerminalAnswer::Wait));
    assert_eq!(script.take(&seen), Some(TerminalAnswer::Done));
    acts(&mut script, 1);
    let mut line = sight("abcdefghijklmno");
    assert_eq!(
        script.take(&line),
        Some(TerminalAnswer::Fail("initial fixture width changed".to_string()))
    );
    line.screen.width = 16;
    assert_eq!(script.take(&line), Some(TerminalAnswer::Done));
    assert_eq!(acts(&mut script, 1), vec![TerminalAct::Resize(8, 6)]);
    let mut wrapped = sight("abcdefgh\nijklmno");
    wrapped.screen.width = 8;
    wrapped.screen.rows = vec![vec![cell("a")], vec![cell("i")]];
    wrapped.screen.text = "abcdefgh ijklmno".to_string();
    assert_eq!(
        script.take(&wrapped),
        Some(TerminalAnswer::FailShowing(
            "wrapped text did not reflow at the new width".to_string()
        ))
    );
    wrapped.screen.text = "abcdefgh\nijklmno".to_string();
    assert_eq!(script.take(&wrapped), Some(TerminalAnswer::Done));
    assert_eq!(
        acts(&mut script, 3),
        vec![
            TerminalAct::Resize(2, 1),
            TerminalAct::Resize(120, 40),
            TerminalAct::Resize(7, 5),
        ]
    );
    let mut small = sight("");
    small.screen.width = 7;
    small.screen.height = 5;
    assert_eq!(script.take(&small), Some(TerminalAnswer::Done));
    assert_eq!(script.take(&small), None);
}

#[test]
fn mouse_bytes_reach_the_child_that_asked_for_them() {
    let mut script = run_fixture_mouse();
    let mut ready = sight("mouse-ready");
    assert_eq!(script.take(&ready), Some(TerminalAnswer::Wait));
    ready.screen.mouse_tracking = true;
    assert_eq!(script.take(&ready), Some(TerminalAnswer::Done));
    let sent = acts(&mut script, 14);
    assert!(matches!(sent[0], TerminalAct::Mouse(_, 0, 0, true)));
    assert!(matches!(sent[3], TerminalAct::Mouse(_, 2, 3, false)));
    assert_eq!(sent[13], TerminalAct::Bytes(vec![10]));
    let expected = b"\x1b[<0;3;4M\x1b[<0;3;4m\x1b[<35;4;5M\x1b[<0;5;6M\x1b[<32;6;7M\x1b[<0;6;7m\x1b[<64;7;8M\x1b[<65;8;9M\x1b[<66;9;10M\x1b[<67;10;11M";
    let marker = mouse_marker(&expected.to_vec());
    assert_eq!(script.take(&sight("mouse-bytes:1b")), Some(TerminalAnswer::Wait));
    assert_eq!(script.take(&sight(&marker)), Some(TerminalAnswer::Done));
}

#[test]
fn a_run_takes_at_most_one_profile() {
    assert_eq!(single_profile(&Vec::new()), Ok(None));
    assert_eq!(single_profile(&vec!["ci".to_string()]), Ok(Some("ci")));
    assert_eq!(
        single_profile(&vec!["ci".to_string(), "ci".to_string()]),
        Err("--profile can be given once".to_string())
    );
}

#[test]
fn an_overdue_paste_or_warning_shows_no_terminal_text() {
    assert!(overdue_shows(TerminalStep::Await("ready")));
    assert!(overdue_shows(TerminalStep::AwaitEcho));
    assert!(overdue_shows(TerminalStep::AwaitMouse));
    assert!(!overdue_shows(TerminalStep::AwaitPaste("normal")));
    assert!(!overdue_shows(TerminalStep::AwaitBackpressure));
}
