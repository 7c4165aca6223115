use stackhand::console::{ConsoleInteraction, ConsolePaneKind, ConsoleWarning};
use stackhand::event_loop::{EventLoop, LoopTurn};
use stackhand::input::{Event, KeyCode, KeyEvent, KeyModifiers, Rect};
use stackhand::interaction::{
    Command, InputResult, InputStep, ProjectInteraction, ProjectLayout, SelectedPane,
};
use stackhand::log_view::OutputRepresentation;
use stackhand::model::{ProcessKind, TerminalMode};
use stackhand::output::{PipeLine, RetainedOutput};
use stackhand::process_logs::ProcessLogs;
use stackhand::snapshot::{
    DesiredState, Lifecycle, ProcessId, ProcessSnapshot, ProjectShutdownSnapshot, ProjectSnapshot,
    RestartBudgetStatus,
};
use stackhand::view_model::{process_list_rows, ProcessListRow};

fn process(name: &str, kind: ProcessKind, process_id: u32) -> ProcessSnapshot {
    ProcessSnapshot {
        process_id: ProcessId::new(process_id),
        name: name.to_string(),
        group: None,
        kind,
        enabled: true,
        autostart: true,
        input_focused: false,
        desired: DesiredState::Running,
        lifecycle: Lifecycle::Running,
        terminal_mode: TerminalMode::Pipe,
        current_run: Some(1),
        current_profile: None,
        next_profile: None,
        root_pid: None,
        run_started_at_ms: Some(0),
        failure: None,
        metrics: None,
        listening_ports: None,
        blocked_reason: None,
        readiness: None,
        liveness: None,
        restart_backoff: None,
        automatic_restart_budget: RestartBudgetStatus {
            automatic_retries_used: 0,
            max_restarts: 5,
            exhausted: false,
        },
        recent_runs: Vec::new(),
    }
}

fn project(processes: Vec<ProcessSnapshot>) -> ProjectSnapshot {
    ProjectSnapshot {
        processes,
        base_profile_name: "base".to_string(),
        selected_profile: None,
        available_profiles: Vec::new(),
        shutdown: None,
        now_ms: 0,
    }
}

fn output(lines: &[String]) -> RetainedOutput {
    RetainedOutput {
        lines: lines
            .iter()
            .enumerate()
            .map(|(number, text)| PipeLine {
                text: text.clone(),
                source: Some((0, number)),
                marker: false,
                selection: None,
                highlight: None,
                content_offset: 0,
            })
            .collect(),
        truncated: false,
        generation: 1,
        search_limit: 1_000,
    }
}

fn none() -> KeyModifiers {
    KeyModifiers { shift: false, control: false, alt: false, other: false }
}

fn key(code: KeyCode) -> Event {
    Event::Key(KeyEvent::new(code, none()))
}

fn layout() -> ProjectLayout {
    ProjectLayout {
        list: Rect { x: 0, y: 0, width: 80, height: 4 },
        console: Rect { x: 0, y: 4, width: 80, height: 22 },
        console_inner: Rect { x: 1, y: 5, width: 78, height: 20 },
        list_offset: 0,
    }
}

fn route(
    interaction: &mut ProjectInteraction,
    code: KeyCode,
    process: &ProcessSnapshot,
    retained: &RetainedOutput,
    rows: &Vec<ProcessListRow>,
) -> InputStep {
    interaction.route_input(
        &key(code),
        1,
        SelectedPane::Logs,
        process,
        retained,
        20,
        rows,
        layout(),
    )
}

fn changed() -> InputStep {
    InputStep::Done(InputResult::Changed, None)
}

#[test]
fn selection_and_lifecycle_commands_cross_one_state_seam() {
    let snapshot = project(vec![
        process("api", ProcessKind::Service, 0),
        process("setup", ProcessKind::OneShot, 1),
    ]);
    let rows = process_list_rows(&snapshot);
    let retained = output(&[]);
    let mut interaction = ProjectInteraction::default();
    interaction.update_project(&snapshot);

    assert_eq!(
        route(
            &mut interaction,
            KeyCode::Char('j'),
            &snapshot.processes[0],
            &retained,
            &rows
        ),
        changed()
    );
    let update = interaction.update_project(&snapshot);
    assert!(update.changed);
    assert_eq!(interaction.selected(), 1);

    route(&mut interaction, KeyCode::Char('r'), &snapshot.processes[1], &retained, &rows);
    let update = interaction.update_project(&snapshot);
    assert_eq!(update.commands, vec![Command::Rerun("setup".to_string())]);
}

#[test]
fn profile_keys_queue_global_selection_and_pending_apply_commands() {
    let mut snapshot = project(vec![process("api", ProcessKind::Service, 0)]);
    snapshot.selected_profile = Some("local".to_string());
    snapshot.available_profiles = vec!["cloud-dev".to_string(), "local".to_string()];
    let rows = process_list_rows(&snapshot);
    let retained = output(&[]);
    let mut interaction = ProjectInteraction::default();
    interaction.update_project(&snapshot);

    assert_eq!(
        route(
            &mut interaction,
            KeyCode::Char('p'),
            &snapshot.processes[0],
            &retained,
            &rows
        ),
        changed()
    );
    assert_eq!(
        interaction.update_project(&snapshot).commands,
        vec![Command::SelectNextProcessProfile]
    );

    snapshot.processes[0].current_run = Some(1);
    snapshot.processes[0].current_profile = Some("local".to_string());
    snapshot.processes[0].next_profile = Some("cloud-dev".to_string());
    interaction.update_project(&snapshot);
    assert_eq!(
        route(
            &mut interaction,
            KeyCode::Char('R'),
            &snapshot.processes[0],
            &retained,
            &rows
        ),
        changed()
    );
    assert_eq!(
        interaction.update_project(&snapshot).commands,
        vec![Command::RestartProfiledAutostart]
    );
}

#[test]
fn start_anyway_is_available_only_for_the_selected_waiting_process() {
    let mut snapshot = project(vec![process("api", ProcessKind::Service, 0)]);
    let rows = process_list_rows(&snapshot);
    let retained = output(&[]);
    let mut interaction = ProjectInteraction::default();
    interaction.update_project(&snapshot);

    assert_eq!(
        route(
            &mut interaction,
            KeyCode::Char('S'),
            &snapshot.processes[0],
            &retained,
            &rows
        ),
        InputStep::Done(InputResult::Ignored, None)
    );

    snapshot.processes[0].lifecycle = Lifecycle::Waiting;
    snapshot.processes[0].blocked_reason = Some("db: ready".to_string());
    interaction.update_project(&snapshot);
    assert_eq!(
        route(
            &mut interaction,
            KeyCode::Char('S'),
            &snapshot.processes[0],
            &retained,
            &rows
        ),
        changed()
    );
    assert_eq!(
        interaction.update_project(&snapshot).commands,
        vec![Command::StartAnyway("api".to_string())]
    );
}

#[test]
fn retained_logs_are_labeled_as_logs_when_a_terminal_is_not_available() {
    let retained = output(&[]);
    let mut interaction = ProjectInteraction::default();
    interaction.logs = vec![ProcessLogs::default()];

    let frame = interaction.frame(SelectedPane::Logs, &retained, 20);

    assert_eq!(frame.representation, OutputRepresentation::Logs);
}

#[test]
fn pty_logs_fallback_routes_copy_to_the_logs_handler() {
    let retained = output(&["quadrant log".to_string()]);
    let mut process = process("api", ProcessKind::Service, 0);
    process.terminal_mode = TerminalMode::Pty;
    process.current_run = None;
    let mut interaction = ProjectInteraction::default();
    interaction.logs = vec![ProcessLogs::default()];
    interaction.console.focus_console(false);
    interaction.frame(SelectedPane::Logs, &retained, 20);

    let step = route(
        &mut interaction,
        KeyCode::Char('c'),
        &process,
        &retained,
        &vec![ProcessListRow::Process(0)],
    );
    match step {
        InputStep::CopyLogs(text) => {
            assert_eq!(text, "quadrant log");
            interaction.console.copy_logs(text, |_| Ok(()));
        }
        other => panic!("the Logs are copied: {other:?}"),
    }
    assert_ne!(
        interaction.console.view().warning,
        Some(ConsoleWarning::LogsCommandOnly),
        "copying visible PTY Logs must not be routed as child input"
    );
}

#[test]
fn logs_frame_reports_the_current_follow_state() {
    let names: Vec<String> = (0..30).map(|line| format!("line-{line}")).collect();
    let retained = output(&names);
    let mut interaction = ProjectInteraction::default();
    interaction.logs = vec![ProcessLogs::default()];

    interaction.logs[0].scroll_page(20, -1);
    assert!(!interaction.frame(SelectedPane::Logs, &retained, 20).view.following);

    interaction.logs[0].scroll_page(20, 1);
    assert!(interaction.frame(SelectedPane::Logs, &retained, 20).view.following);
}

#[test]
fn quitting_is_left_to_the_caller() {
    let snapshot = project(vec![process("api", ProcessKind::Service, 0)]);
    let rows = process_list_rows(&snapshot);
    let retained = output(&[]);
    let mut interaction = ProjectInteraction::default();
    interaction.update_project(&snapshot);
    assert_eq!(
        route(
            &mut interaction,
            KeyCode::Char('q'),
            &snapshot.processes[0],
            &retained,
            &rows
        ),
        InputStep::Done(InputResult::Quit, None)
    );
    assert!(!interaction.update_project(&snapshot).changed);
}

#[test]
fn a_pane_change_clears_the_warning_of_the_pane() {
    let mut console = ConsoleInteraction::default();
    console.warn(ConsoleWarning::LogsCommandOnly);
    console.set_pane(ConsolePaneKind::Pipe);
    console.set_pane(ConsolePaneKind::Terminal);
    assert_eq!(console.view().warning, None);
}

#[test]
fn the_event_loop_sees_a_snapshot_once_and_shuts_down_once() {
    let mut state = EventLoop::default();
    assert!(state.start_frame(false), "the first frame is drawn");
    assert!(matches!(state.observe(None, Vec::new()), Err(message) if message == "the Supervisor stopped"));
    let mut snapshot = project(vec![process("api", ProcessKind::Service, 1)]);
    let empty = project(Vec::new());
    assert!(state.observe(Some(&empty), Vec::new()).is_err());
    assert!(matches!(
        state.observe(Some(&snapshot), snapshot.processes.clone()),
        Ok(LoopTurn::Continue(commands)) if commands.is_empty()
    ));
    assert!(state.start_frame(false));
    assert!(state.observe(Some(&snapshot), snapshot.processes.clone()).is_ok());
    assert!(!state.start_frame(false), "the same snapshot is no news");
    snapshot.processes[0].lifecycle = Lifecycle::Stopped;
    assert!(state.observe(Some(&snapshot), snapshot.processes.clone()).is_ok());
    assert!(state.start_frame(false));

    assert_eq!(
        state.finish_input(InputResult::Quit),
        Some(Command::Shutdown(20_000_000_000))
    );
    assert_eq!(state.finish_input(InputResult::Quit), None);
    snapshot.shutdown =
        Some(ProjectShutdownSnapshot { complete: true, timed_out: false, failures: Vec::new() });
    assert!(matches!(
        state.observe(Some(&snapshot), snapshot.processes.clone()),
        Ok(LoopTurn::Finished)
    ));
}
