use stackhand::console::{ConsoleViewMode, ConsoleViewState};
use stackhand::geometry::TerminalGeometry;
use stackhand::input::{KeyCode, KeyEvent, KeyModifiers, MouseButton, MouseEventKind, Rect};
use stackhand::interaction::{
    is_quit, mouse_changes_focus, mouse_starts_console_focus, should_quit,
};
use stackhand::model::{ProcessKind, TerminalMode};
use stackhand::resize::PendingResize;
use stackhand::snapshot::{
    CheckKind, CheckState, CheckStatus, DesiredState, FailureKind, FailureSummary, Lifecycle,
    ProcessId, ProcessShutdownFailure, ProcessSnapshot, ProjectShutdownSnapshot, ProjectSnapshot,
    RestartBackoffStatus, RestartBudgetStatus,
};
use stackhand::view_model::{
    format_age, format_rss, lifecycle_tone, metric_precision, process_list_rows,
    process_list_title, process_row_at, process_rows, report_shutdown_result, selected_header,
    status_label, LifecycleTone, ProcessListRow,
};

#[test]
fn shutdown_result_keeps_failures_and_remaining_pids() {
    let result = ProjectShutdownSnapshot {
        complete: true,
        timed_out: true,
        failures: vec![ProcessShutdownFailure {
            process: "api".to_string(),
            detail: "Project shutdown deadline expired".to_string(),
            remaining_pids: vec![41, 42],
        }],
    };

    let error = report_shutdown_result(&result).expect_err("cleanup failure is reported");
    assert_eq!(
        error,
        "Project shutdown did not finish cleanly: api: Project shutdown deadline expired (remaining PIDs: [41, 42])"
    );
}

#[test]
fn a_clean_shutdown_is_reported_as_such() {
    let result =
        ProjectShutdownSnapshot { complete: true, timed_out: false, failures: Vec::new() };
    assert_eq!(report_shutdown_result(&result), Ok(()));
}

#[test]
fn metric_and_age_labels_use_compact_units() {
    assert_eq!(format_rss(768), "768K");
    assert_eq!(format_rss(180 * 1024), "180M");
    assert_eq!(format_rss(1024 * 1024), "1.0G");
    assert_eq!(metric_precision("12%", true), "~12%");
    assert_eq!(metric_precision("12%", false), "12%");
    assert_eq!(format_age(59_000), "59s");
    assert_eq!(format_age(61_000), "1m1s");
}

#[test]
fn profile_column_appears_for_pending_and_mixed_process_profiles() {
    let mut first = projection_process();
    first.current_profile = Some("local".to_string());
    first.next_profile = Some("cloud-dev".to_string());
    let mut second = projection_process();
    second.name = "worker".to_string();
    second.process_id = ProcessId::new(2);
    second.current_profile = Some("cloud-dev".to_string());
    second.next_profile = Some("cloud-dev".to_string());
    let snapshot = ProjectSnapshot {
        processes: vec![first, second],
        base_profile_name: "base".to_string(),
        selected_profile: Some("cloud-dev".to_string()),
        available_profiles: vec!["cloud-dev".to_string(), "local".to_string()],
        shutdown: None,
        now_ms: 0,
    };

    let rows = process_rows(&snapshot, 0);
    assert_eq!(rows[0].profile.as_deref(), Some("local → cloud-dev"));
    assert_eq!(rows[1].profile.as_deref(), Some("cloud-dev"));
    assert_eq!(
        process_list_title(&snapshot),
        "Processes · Profile: cloud-dev ▾ · 1 pending"
    );
}

#[test]
fn configured_base_profile_name_is_used_in_visible_profile_labels() {
    let mut process = projection_process();
    process.current_profile = None;
    process.next_profile = Some("cloud-dev".to_string());
    let snapshot = ProjectSnapshot {
        processes: vec![process],
        base_profile_name: "local".to_string(),
        selected_profile: Some("cloud-dev".to_string()),
        available_profiles: vec!["cloud-dev".to_string()],
        shutdown: None,
        now_ms: 0,
    };

    assert_eq!(
        process_rows(&snapshot, 0)[0].profile.as_deref(),
        Some("local → cloud-dev")
    );

    let mut base_snapshot = snapshot;
    base_snapshot.selected_profile = None;
    base_snapshot.processes[0].next_profile = None;
    assert_eq!(process_list_title(&base_snapshot), "Processes · Profile: local ▾");
}

#[test]
fn profile_column_hides_when_global_profile_describes_every_process() {
    let mut process = projection_process();
    process.current_profile = Some("local".to_string());
    process.next_profile = Some("local".to_string());
    let snapshot = ProjectSnapshot {
        processes: vec![process],
        base_profile_name: "base".to_string(),
        selected_profile: Some("local".to_string()),
        available_profiles: vec!["local".to_string()],
        shutdown: None,
        now_ms: 0,
    };

    assert_eq!(process_rows(&snapshot, 0)[0].profile, None);
    assert_eq!(process_list_title(&snapshot), "Processes · Profile: local ▾");
}

#[test]
fn process_list_rows_place_named_and_other_group_headings() {
    let mut database = projection_process();
    database.name = "database".to_string();
    database.group = Some("Infrastructure".to_string());
    let mut api = projection_process();
    api.name = "api".to_string();
    api.group = Some("Application".to_string());
    let mut worker = projection_process();
    worker.name = "worker".to_string();
    let snapshot = ProjectSnapshot {
        processes: vec![database, api, worker],
        base_profile_name: "base".to_string(),
        selected_profile: None,
        available_profiles: Vec::new(),
        shutdown: None,
        now_ms: 0,
    };

    let rows = process_list_rows(&snapshot);
    assert_eq!(
        rows,
        vec![
            ProcessListRow::Heading("Infrastructure".to_string()),
            ProcessListRow::Process(0),
            ProcessListRow::Heading("Application".to_string()),
            ProcessListRow::Process(1),
            ProcessListRow::Heading("Other".to_string()),
            ProcessListRow::Process(2),
        ]
    );
}

fn projection_process() -> ProcessSnapshot {
    ProcessSnapshot {
        process_id: ProcessId::new(1),
        name: "api".to_string(),
        group: None,
        kind: ProcessKind::Service,
        enabled: true,
        autostart: true,
        input_focused: false,
        desired: DesiredState::Running,
        lifecycle: Lifecycle::Running,
        terminal_mode: TerminalMode::Pipe,
        current_run: Some(7),
        current_profile: None,
        next_profile: None,
        root_pid: Some(42),
        run_started_at_ms: Some(1_000),
        failure: None,
        metrics: None,
        listening_ports: None,
        blocked_reason: None,
        readiness: None,
        liveness: None,
        restart_backoff: None,
        automatic_restart_budget: RestartBudgetStatus {
            automatic_retries_used: 0,
            max_restarts: 2,
            exhausted: false,
        },
        recent_runs: Vec::new(),
    }
}

fn failing_check() -> CheckStatus {
    CheckStatus {
        kind: CheckKind::Http,
        state: CheckState::Failing,
        attempts: 3,
        consecutive_successes: 0,
        consecutive_failures: 3,
        last_error: Some("HTTP status 503".to_string()),
        elapsed_ms: 500,
        children: Vec::new(),
    }
}

#[test]
fn tui_projection_keeps_lifecycle_reasons_visible() {
    let mut process = projection_process();

    process.lifecycle = Lifecycle::Waiting;
    process.current_run = None;
    process.blocked_reason = Some("all-ready: ready".to_string());
    assert_eq!(status_label(&process), "Waiting (all-ready: ready)");
    assert_eq!(lifecycle_tone(&process), LifecycleTone::Warning);
    assert!(selected_header(&process, 5_000).contains("all-ready: ready"));

    process.lifecycle = Lifecycle::Running;
    process.current_run = Some(7);
    process.blocked_reason = None;
    process.readiness = Some(failing_check());
    assert!(selected_header(&process, 5_000).contains("readiness attempt 3: HTTP status 503"));

    process.readiness = None;
    process.liveness = Some(failing_check());
    assert_eq!(status_label(&process), "Unhealthy");
    assert_eq!(lifecycle_tone(&process), LifecycleTone::Error);

    process.lifecycle = Lifecycle::RestartBackoff;
    process.current_run = None;
    process.liveness = None;
    process.restart_backoff = Some(RestartBackoffStatus {
        reason: "unhealthy".to_string(),
        next_attempt_at_ms: 7_500,
    });
    process.automatic_restart_budget.automatic_retries_used = 1;
    assert_eq!(status_label(&process), "Restarting (unhealthy)");
    assert_eq!(lifecycle_tone(&process), LifecycleTone::Warning);
    let header = selected_header(&process, 5_000);
    assert!(header.contains("automatic retries 1/2"));
    assert!(header.contains("next restart at 7500ms"));

    process.lifecycle = Lifecycle::Stopped;
    process.restart_backoff = None;
    process.failure = Some(FailureSummary {
        kind: FailureKind::RestartLimit,
        detail: "Restart limit exhausted".to_string(),
    });
    assert_eq!(status_label(&process), "Failed (Restart limit exhausted)");
    assert_eq!(lifecycle_tone(&process), LifecycleTone::Error);
    assert!(selected_header(&process, 5_000).contains("Restart limit exhausted"));
}

#[test]
fn plain_q_quits_only_from_process_list_focus() {
    let none = KeyModifiers { shift: false, control: false, alt: false, other: false };
    let plain_q = KeyEvent::new(KeyCode::Char('q'), none);
    let ctrl_q = KeyEvent::new(KeyCode::Char('q'), KeyModifiers { control: true, ..none });
    let list = ConsoleViewState::default();
    let console = ConsoleViewState { mode: ConsoleViewMode::Console, ..list };

    assert!(is_quit(plain_q, list));
    assert!(!is_quit(plain_q, console));
    assert!(is_quit(ctrl_q, list));
    assert!(is_quit(ctrl_q, console));
    assert!(!should_quit(plain_q, list, true));
    assert!(should_quit(ctrl_q, console, true));
}

#[test]
fn only_a_mouse_press_changes_keyboard_focus() {
    assert!(mouse_changes_focus(MouseEventKind::Down(MouseButton::Left)));
    assert!(!mouse_changes_focus(MouseEventKind::ScrollUp));
    assert!(!mouse_changes_focus(MouseEventKind::Drag(MouseButton::Left)));
    assert!(!mouse_changes_focus(MouseEventKind::Up(MouseButton::Left)));
    assert!(mouse_starts_console_focus(
        MouseEventKind::Down(MouseButton::Left),
        ConsoleViewMode::ProcessList
    ));
    assert!(!mouse_starts_console_focus(
        MouseEventKind::Down(MouseButton::Left),
        ConsoleViewMode::Copy
    ));
}

#[test]
fn process_row_hit_testing_excludes_the_header_borders_and_empty_rows() {
    let list = Rect { x: 0, y: 0, width: 40, height: 6 };

    let flat = vec![
        ProcessListRow::Process(0),
        ProcessListRow::Process(1),
        ProcessListRow::Process(2),
    ];
    assert_eq!(process_row_at(list, 0, &flat, 0), None);
    assert_eq!(process_row_at(list, 1, &flat, 0), None);
    assert_eq!(process_row_at(list, 2, &flat, 0), Some(0));
    assert_eq!(process_row_at(list, 4, &flat, 0), Some(2));
    assert_eq!(process_row_at(list, 5, &flat, 0), None);
}

#[test]
fn process_row_hit_testing_skips_process_group_headings() {
    let list = Rect { x: 0, y: 0, width: 40, height: 8 };
    let grouped = vec![
        ProcessListRow::Heading("Infrastructure".to_string()),
        ProcessListRow::Process(0),
        ProcessListRow::Process(1),
        ProcessListRow::Heading("Application".to_string()),
        ProcessListRow::Process(2),
    ];
    assert_eq!(process_row_at(list, 2, &grouped, 0), None);
    assert_eq!(process_row_at(list, 3, &grouped, 0), Some(0));
    assert_eq!(process_row_at(list, 4, &grouped, 0), Some(1));
    assert_eq!(process_row_at(list, 5, &grouped, 0), None);
    assert_eq!(process_row_at(list, 6, &grouped, 0), Some(2));
}

#[test]
fn process_row_hit_testing_tracks_the_visible_table_offset() {
    let list = Rect { x: 0, y: 0, width: 40, height: 6 };

    let flat = (0..8).map(ProcessListRow::Process).collect::<Vec<_>>();
    assert_eq!(process_row_at(list, 2, &flat, 5), Some(5));
    assert_eq!(process_row_at(list, 4, &flat, 5), Some(7));
}

fn millis(value: u64) -> u64 {
    5_000_000_000 + value * 1_000_000
}

#[test]
fn rapid_resize_uses_only_the_last_valid_geometry() {
    let mut pending = PendingResize::default();
    pending.update(TerminalGeometry::new(120, 40).unwrap(), millis(0));
    pending.update(TerminalGeometry::new(1, 1).unwrap(), millis(2));
    pending.update(TerminalGeometry::new(73, 19).unwrap(), millis(4));

    assert_eq!(pending.take_ready(millis(19)), None);
    assert_eq!(pending.take_ready(millis(20)), TerminalGeometry::new(73, 19));
    assert_eq!(pending.take_ready(millis(21)), None);
}
