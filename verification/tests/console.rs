use std::cell::RefCell;

use stackhand::console::{
    child_input_rejected, copy_warning, process_command, ConsoleInteraction, ConsolePaneKind,
    ConsoleStep, ConsoleViewMode, ConsoleViewState, ConsoleWarning, MouseRoute, ProcessCommand,
    SelectionMove, TerminalAction, TerminalScrollbar,
};
use stackhand::input::{
    KeyCode, KeyEvent, KeyEventKind, KeyModifiers, MouseButton, MouseEvent, MouseEventKind,
    Rect,
};
use stackhand::lifecycle::LifecycleCommand;
use stackhand::output::{PipeLine, RetainedOutput};
use stackhand::pipe_scroll::PipeScroll;
use stackhand::process_logs::ProcessLogs;
use stackhand::scrollbar::ConsoleScrollbar;

fn none() -> KeyModifiers {
    KeyModifiers { shift: false, control: false, alt: false, other: false }
}

fn key(code: KeyCode) -> KeyEvent {
    KeyEvent::new(code, none())
}

fn leader() -> KeyEvent {
    KeyEvent::new(KeyCode::Char('a'), KeyModifiers { control: true, ..none() })
}

fn lines(count: usize) -> RetainedOutput {
    RetainedOutput {
        lines: (0..count)
            .map(|number| PipeLine {
                text: format!("line-{number}"),
                source: Some((number as u64, 0)),
                marker: false,
                selection: None,
                highlight: None,
                content_offset: 0,
            })
            .collect(),
        truncated: false,
        generation: 1,
        search_limit: 100,
    }
}

fn changed(step: ConsoleStep) -> bool {
    matches!(step, ConsoleStep::Changed(_))
}

#[test]
fn process_list_owns_the_keyboard_at_startup() {
    let interaction = ConsoleInteraction::default();

    assert_eq!(interaction.view().mode, ConsoleViewMode::ProcessList);
    assert_eq!(
        process_command(KeyCode::Char('j')),
        Some(ProcessCommand::MoveSelection(SelectionMove::Down))
    );
    assert_eq!(
        process_command(KeyCode::Char('s')),
        Some(ProcessCommand::Lifecycle(LifecycleCommand::Start))
    );
    assert_eq!(
        process_command(KeyCode::Char('x')),
        Some(ProcessCommand::Lifecycle(LifecycleCommand::Stop))
    );
    assert_eq!(
        process_command(KeyCode::Char('r')),
        Some(ProcessCommand::Lifecycle(LifecycleCommand::Restart))
    );
}

#[test]
fn process_navigation_works_before_ctrl_a_and_never_reaches_the_child() {
    let mut interaction = ConsoleInteraction::default();

    for (code, expected) in [
        (KeyCode::Down, SelectionMove::Down),
        (KeyCode::Char('j'), SelectionMove::Down),
        (KeyCode::Up, SelectionMove::Up),
        (KeyCode::Char('k'), SelectionMove::Up),
    ] {
        assert!(changed(interaction.handle_key(key(code), 20)));
        assert_eq!(interaction.take_selection_moves(), vec![expected]);
        assert_eq!(interaction.view().mode, ConsoleViewMode::ProcessList);
    }

    assert!(changed(interaction.handle_key(leader(), 20)));
    assert_eq!(interaction.view().mode, ConsoleViewMode::Console);
    let leader_release = KeyEvent { kind: KeyEventKind::Release, ..leader() };
    assert!(
        changed(interaction.handle_key(leader_release, 20)),
        "the leader release stays owned after console focus begins"
    );
    assert_eq!(interaction.view().mode, ConsoleViewMode::Console);
    assert_eq!(
        interaction.handle_key(key(KeyCode::Char('j')), 20),
        ConsoleStep::DeliverKey(key(KeyCode::Char('j')))
    );
    assert_eq!(interaction.take_selection_moves(), Vec::new());

    assert!(changed(interaction.handle_key(leader(), 20)));
    assert_eq!(interaction.view().mode, ConsoleViewMode::ProcessList);
}

#[test]
fn applying_selection_moves_clamps_and_preserves_process_scroll() {
    let mut interaction = ConsoleInteraction::default();
    interaction.warn(ConsoleWarning::LogsCommandOnly);
    interaction.handle_key(key(KeyCode::Up), 20);
    interaction.handle_key(key(KeyCode::Down), 20);
    let mut selected = 0;
    let mut scroll = PipeScroll::default();
    scroll.scroll_page(20, -1);

    assert!(interaction.apply_selection_moves(&mut selected, 2));
    assert_eq!(selected, 1);
    assert_eq!(scroll.window(&lines(60), 20)[0].source, Some((60 - 20 - 19, 0)));
    assert_eq!(interaction.view().warning, None);

    interaction.handle_key(key(KeyCode::Down), 20);
    assert!(interaction.apply_selection_moves(&mut selected, 2));
    assert_eq!(selected, 1, "selection clamps at the Project end");
}

#[test]
fn list_scrolling_keeps_list_focus_and_f_returns_to_live_tail() {
    let mut interaction = ConsoleInteraction::default();

    assert_eq!(
        interaction.handle_key(key(KeyCode::PageUp), 20),
        ConsoleStep::Changed(Some(TerminalAction::ScrollLines(-19)))
    );
    assert_eq!(interaction.view().mode, ConsoleViewMode::ProcessList);
    assert!(!interaction.view().following);

    assert_eq!(
        interaction.handle_key(key(KeyCode::Char('f')), 20),
        ConsoleStep::Changed(Some(TerminalAction::FollowLive))
    );
    assert_eq!(interaction.view().mode, ConsoleViewMode::ProcessList);
    assert!(interaction.view().following);
}

#[test]
fn disabled_input_is_rejected_only_with_console_focus() {
    let plain = key(KeyCode::Char('x'));
    let repeat = KeyEvent { kind: KeyEventKind::Repeat, ..plain };
    let list = ConsoleViewState::default();
    let console = ConsoleViewState { mode: ConsoleViewMode::Console, ..list };

    assert!(!child_input_rejected(list, false, &plain));
    assert!(child_input_rejected(console, false, &plain));
    assert!(child_input_rejected(console, false, &repeat));
    assert!(!child_input_rejected(console, false, &leader()));
    assert!(!child_input_rejected(console, true, &plain));
}

#[test]
fn read_only_pane_has_immediate_list_commands_and_explicit_console_focus() {
    let mut interaction = ConsoleInteraction::default();
    interaction.set_pane(ConsolePaneKind::Pipe);
    let mut logs = ProcessLogs::default();
    let retained = lines(60);

    assert!(interaction.handle_key_read_only(key(KeyCode::Char('j')), &mut logs, 20));
    assert_eq!(interaction.take_selection_moves(), vec![SelectionMove::Down]);

    assert!(interaction.handle_key_read_only(key(KeyCode::PageUp), &mut logs, 20));
    assert_eq!(logs.frame(&retained, 20).lines[0].source, Some((60 - 20 - 19, 0)));
    assert_eq!(interaction.view().mode, ConsoleViewMode::ProcessList);
    assert!(!interaction.view().following);

    assert!(interaction.handle_key_read_only(key(KeyCode::Char('f')), &mut logs, 20));
    assert_eq!(logs.frame(&retained, 20).lines[0].source, Some((40, 0)));
    assert!(interaction.view().following);

    assert!(interaction.handle_key_read_only(leader(), &mut logs, 20));
    assert_eq!(interaction.view().mode, ConsoleViewMode::Console);
    assert!(interaction.handle_key_read_only(key(KeyCode::Char('x')), &mut logs, 20));
    assert_eq!(interaction.view().warning, Some(ConsoleWarning::LogsCommandOnly));

    assert!(interaction.handle_key_read_only(leader(), &mut logs, 20));
    assert_eq!(interaction.view().mode, ConsoleViewMode::ProcessList);
    assert!(interaction.handle_key_read_only(key(KeyCode::Char('x')), &mut logs, 20));
    assert_eq!(interaction.take_lifecycle_commands(), vec![LifecycleCommand::Stop]);
}

#[test]
fn copy_mode_supports_vim_navigation_and_copy_aliases() {
    let mut interaction = ConsoleInteraction::default();

    assert!(changed(interaction.handle_key(key(KeyCode::Char('v')), 20)));
    assert_eq!(interaction.view().mode, ConsoleViewMode::Copy);
    for code in [
        KeyCode::Char('h'),
        KeyCode::Char('j'),
        KeyCode::Char('k'),
        KeyCode::Char('l'),
        KeyCode::Left,
        KeyCode::Down,
        KeyCode::Up,
        KeyCode::Right,
        KeyCode::Char('v'),
        KeyCode::Char('c'),
        KeyCode::Char('y'),
    ] {
        assert!(changed(interaction.handle_key(key(code), 20)), "{code:?}");
    }
    assert!(changed(interaction.handle_key(key(KeyCode::Esc), 20)));
    assert_eq!(interaction.view().mode, ConsoleViewMode::ProcessList);
}

/// What the mouse router answers while Stackhand owns the gesture.
fn owned(active: bool) -> Option<MouseRoute> {
    Some(MouseRoute {
        stackhand_owned: true,
        stackhand_gesture_active: active,
        changes_history_view: false,
    })
}

fn deliver(interaction: &mut ConsoleInteraction, mouse: MouseEvent, time: u64) -> bool {
    let active = mouse.kind != MouseEventKind::Up(MouseButton::Left);
    match interaction.handle_mouse(mouse, active, owned(active), time) {
        ConsoleStep::DeliverMouse(selects) => {
            interaction.record_mouse_result(true, selects);
            true
        }
        ConsoleStep::Changed(_) => true,
        _ => false,
    }
}

#[test]
fn console_click_focuses_and_drag_enters_copy_mode() {
    let mut interaction = ConsoleInteraction::default();
    interaction.focus_console(true);

    let mouse = MouseEvent {
        kind: MouseEventKind::Down(MouseButton::Left),
        column: 8,
        row: 6,
        modifiers: none(),
    };
    assert!(deliver(&mut interaction, mouse, 0));
    assert_eq!(interaction.view().mode, ConsoleViewMode::Console);
    assert!(interaction.mouse_gesture_active());

    let drag = MouseEvent { kind: MouseEventKind::Drag(MouseButton::Left), column: 12, ..mouse };
    assert!(deliver(&mut interaction, drag, 1_000_000));
    assert_eq!(interaction.view().mode, ConsoleViewMode::Copy);

    let release = MouseEvent { kind: MouseEventKind::Up(MouseButton::Left), ..mouse };
    assert!(deliver(&mut interaction, release, 2_000_000));
    assert!(!interaction.mouse_gesture_active());

    interaction.focus_console(true);
    assert!(deliver(&mut interaction, mouse, 3_000_000));
    assert_eq!(interaction.view().mode, ConsoleViewMode::Console);
    assert!(deliver(&mut interaction, release, 4_000_000));
    assert!(deliver(&mut interaction, mouse, 5_000_000));
    assert_eq!(
        interaction.view().mode,
        ConsoleViewMode::Copy,
        "a repeated click exposes the terminal-owned word selection"
    );
    assert!(deliver(&mut interaction, release, 6_000_000));
    assert!(deliver(&mut interaction, mouse, 7_000_000));
    assert_eq!(
        interaction.view().mode,
        ConsoleViewMode::Copy,
        "a third click keeps Copy mode for the logical-line selection"
    );
}

#[test]
fn clipboard_failure_is_a_visible_warning_not_a_terminal_failure() {
    let warning = copy_warning(Ok(Some("selected".to_string())), |_| {
        Err("clipboard unavailable".to_string())
    });

    assert_eq!(warning, Some(ConsoleWarning::ClipboardFailed));
}

#[test]
fn empty_selection_does_not_call_the_clipboard() {
    let warning = copy_warning(Ok(None), |_| panic!("clipboard must not be called"));

    assert_eq!(warning, Some(ConsoleWarning::NothingSelected));
}

#[test]
fn a_written_copy_leaves_no_warning() {
    assert_eq!(copy_warning(Ok(Some("selected".to_string())), |_| Ok(())), None);
}

#[test]
fn the_leader_returns_to_where_it_came_from() {
    let mut interaction = ConsoleInteraction::default();
    interaction.focus_console(true);
    let before = interaction.view();
    interaction.handle_key(leader(), 20);
    assert_eq!(interaction.view().mode, ConsoleViewMode::ProcessList);
    interaction.handle_key(leader(), 20);
    assert_eq!(interaction.view(), before);
}

#[test]
fn a_process_without_input_gets_no_key() {
    let mut interaction = ConsoleInteraction::default();
    interaction.focus_console(true);
    let mut logs = ProcessLogs::default();
    let step = interaction.route_pane_key(
        ConsolePaneKind::Terminal,
        false,
        key(KeyCode::Char('x')),
        &mut logs,
        20,
    );
    assert_eq!(step, ConsoleStep::Changed(None));
    assert_eq!(interaction.view().warning, Some(ConsoleWarning::InputDisabled));
}

fn left(kind: MouseEventKind, column: u16, row: u16) -> MouseEvent {
    MouseEvent { kind, column, row, modifiers: none() }
}

#[test]
fn the_terminal_scrollbar_is_pressed_and_dragged() {
    let bar = TerminalScrollbar { total: 110, offset: 0, len: 10 };
    let drawn = Some(ConsoleScrollbar { position: 0, content_length: 101, viewport_length: 10 });
    let area = Rect { x: 0, y: 0, width: 20, height: 11 };
    let mut interaction = ConsoleInteraction::default();

    let off = left(MouseEventKind::Down(MouseButton::Left), 18, 10);
    assert!(matches!(
        interaction.handle_terminal_scrollbar_mouse(off, area, bar, drawn),
        ConsoleStep::Ignored
    ));
    assert!(!interaction.terminal_scrollbar_gesture_active());

    let track = left(MouseEventKind::Down(MouseButton::Left), 19, 10);
    assert!(matches!(
        interaction.handle_terminal_scrollbar_mouse(track, area, bar, drawn),
        ConsoleStep::Changed(Some(TerminalAction::ScrollToRow(100)))
    ));
    assert_eq!(interaction.view().mode, ConsoleViewMode::Console);
    assert!(interaction.view().following);
    assert!(interaction.terminal_scrollbar_gesture_active());
    let up = left(MouseEventKind::Up(MouseButton::Left), 3, 3);
    assert!(changed(interaction.handle_terminal_scrollbar_mouse(up, area, bar, drawn)));
    assert!(!interaction.terminal_scrollbar_gesture_active());

    let thumb = left(MouseEventKind::Down(MouseButton::Left), 19, 0);
    assert!(matches!(
        interaction.handle_terminal_scrollbar_mouse(thumb, area, bar, drawn),
        ConsoleStep::Changed(None)
    ));
    assert!(!interaction.view().following);
    let drag = left(MouseEventKind::Drag(MouseButton::Left), 4, 5);
    assert!(matches!(
        interaction.handle_terminal_scrollbar_mouse(drag, area, bar, drawn),
        ConsoleStep::Changed(Some(TerminalAction::ScrollToRow(50)))
    ));
    let below = left(MouseEventKind::Drag(MouseButton::Left), 4, 90);
    assert!(matches!(
        interaction.handle_terminal_scrollbar_mouse(below, area, bar, drawn),
        ConsoleStep::Changed(Some(TerminalAction::ScrollToRow(100)))
    ));
    assert!(interaction.view().following);
    interaction.cancel_terminal_scrollbar_gesture();
    assert!(!interaction.terminal_scrollbar_gesture_active());
}

#[test]
fn empty_logs_are_not_written_to_the_clipboard() {
    let mut interaction = ConsoleInteraction::default();
    interaction.copy_logs(String::new(), |_| panic!("nothing is written"));
    assert_eq!(interaction.view().warning, Some(ConsoleWarning::NoLogsToCopy));
    let mut written = String::new();
    interaction.copy_logs("two\nlines".to_string(), |text| {
        written = text;
        Ok(())
    });
    assert_eq!(written, "two\nlines");
    assert_eq!(interaction.view().warning, None);
    interaction.copy_logs("text".to_string(), |_| Err("no clipboard".to_string()));
    assert_eq!(interaction.view().warning, Some(ConsoleWarning::ClipboardFailed));
}

#[test]
fn every_finished_copy_goes_to_the_clipboard_in_order() {
    let mut interaction = ConsoleInteraction::default();
    let written = RefCell::new(Vec::new());
    let write = |text: String| {
        written.borrow_mut().push(text);
        Ok(())
    };

    let copies = vec![
        Ok(Some("first".to_string())),
        Ok(Some(String::new())),
        Ok(Some("second".to_string())),
        Ok(None),
    ];
    assert!(interaction.poll_requests(false, copies, &write));
    assert_eq!(*written.borrow(), ["first", "second"]);
    assert_eq!(interaction.view().warning, Some(ConsoleWarning::NothingSelected));

    assert!(interaction.poll_requests(true, vec![Ok(Some("third".to_string()))], &write));
    assert_eq!(written.borrow().last().map(String::as_str), Some("third"));
    assert_eq!(interaction.view().warning, None);
}

#[test]
fn a_failed_copy_or_paste_is_warned_of() {
    let mut interaction = ConsoleInteraction::default();
    let refuse = |_: String| Err("no clipboard".to_string());

    assert!(!interaction.poll_requests(false, Vec::new(), refuse));
    assert_eq!(interaction.view().warning, None);
    assert!(interaction.poll_requests(true, Vec::new(), refuse));
    assert_eq!(interaction.view().warning, Some(ConsoleWarning::PasteDeliveryFailed));
    assert!(interaction.poll_requests(false, vec![Ok(Some("text".to_string()))], refuse));
    assert_eq!(interaction.view().warning, Some(ConsoleWarning::ClipboardFailed));
    assert!(interaction.poll_requests(false, vec![Err("lost".to_string())], |_| Ok(())));
    assert_eq!(interaction.view().warning, Some(ConsoleWarning::ClipboardFailed));
}

#[test]
fn a_snapshot_has_its_lines_in_source_order_behind_the_retained_head_notice() {
    assert!(lines(0).is_valid());
    assert!(lines(3).is_valid());

    let mut swapped = lines(3);
    swapped.lines.swap(0, 2);
    assert!(!swapped.is_valid());
    let mut repeated = lines(2);
    repeated.lines[1].source = repeated.lines[0].source;
    assert!(!repeated.is_valid());
    let mut unsourced = lines(2);
    unsourced.lines[1].source = None;
    assert!(!unsourced.is_valid());

    let mut truncated = lines(2);
    truncated.truncated = true;
    assert!(!truncated.is_valid());
    truncated.lines[0].source = None;
    assert!(!truncated.is_valid());
    truncated.lines[0].marker = true;
    assert!(truncated.is_valid());
    let mut empty = lines(0);
    empty.truncated = true;
    assert!(!empty.is_valid());
}
