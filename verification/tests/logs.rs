use stackhand::input::{
    KeyCode, KeyEvent, KeyModifiers, MouseEvent, MouseEventKind, Rect,
};
use stackhand::log_view::{
    LogView, LogViewAction, OutputRepresentation, SearchDialogView, SEARCH_QUERY_BYTES,
};
use stackhand::output::{PipeLine, RetainedOutput};
use stackhand::process_logs::{LogsInput, ProcessLogs};

fn none() -> KeyModifiers {
    KeyModifiers { shift: false, control: false, alt: false, other: false }
}

fn key(code: KeyCode) -> KeyEvent {
    KeyEvent::new(code, none())
}

fn output(lines: &[&str]) -> RetainedOutput {
    RetainedOutput {
        lines: lines
            .iter()
            .enumerate()
            .map(|(number, text)| PipeLine {
                text: text.to_string(),
                source: Some((0, number)),
                marker: false,
                selection: None,
                highlight: None,
                content_offset: 0,
            })
            .collect(),
        truncated: false,
        generation: 1,
        search_limit: 1_000,
    }
}

#[test]
fn logs_focus_can_start_edit_and_cancel_search() {
    let output = output(&[]);
    let mut view = LogView::default();

    assert_eq!(
        view.handle_key(key(KeyCode::Char('/')), false, false, &output),
        LogViewAction::Pause
    );
    assert!(view.is_editing());
    assert_eq!(
        view.dialog(),
        Some(SearchDialogView {
            query: String::new(),
            result: "Type a word or phrase".to_string(),
        })
    );
    assert_eq!(view.status().as_deref(), Some("Search: _"));

    assert_eq!(
        view.handle_key(key(KeyCode::Esc), false, false, &output),
        LogViewAction::Changed
    );
    assert!(!view.is_editing());

    view.handle_key(key(KeyCode::Char('/')), false, false, &output);
    assert_eq!(
        view.handle_key(
            KeyEvent::new(KeyCode::Char('c'), KeyModifiers { control: true, ..none() }),
            false,
            false,
            &output,
        ),
        LogViewAction::Changed
    );
    assert!(!view.is_editing());
}

#[test]
fn cancel_search_restores_the_terminal_view_that_opened_it() {
    let output = output(&[]);
    let mut view = LogView::default();

    assert_eq!(
        view.handle_key(key(KeyCode::Char('/')), true, true, &output),
        LogViewAction::Pause
    );
    assert_eq!(view.representation(true), OutputRepresentation::Logs);

    view.handle_key(key(KeyCode::Esc), true, true, &output);

    assert!(!view.is_editing());
    assert_eq!(view.representation(true), OutputRepresentation::Terminal);
}

#[test]
fn terminal_focus_keeps_slash_for_the_child_until_logs_are_active() {
    let output = output(&[]);
    let mut view = LogView::default();

    assert_eq!(
        view.handle_key(key(KeyCode::Char('/')), false, true, &output),
        LogViewAction::Ignored
    );
    view.handle_key(key(KeyCode::Char('l')), true, true, &output);
    assert_eq!(view.representation(true), OutputRepresentation::Logs);
    assert_eq!(
        view.handle_key(key(KeyCode::Char('/')), false, true, &output),
        LogViewAction::Pause
    );
    assert!(view.is_editing());
    view.handle_key(key(KeyCode::Esc), false, true, &output);

    assert_eq!(
        view.handle_key(key(KeyCode::Char('l')), false, true, &output),
        LogViewAction::Changed
    );
    assert_eq!(view.representation(true), OutputRepresentation::Terminal);
}

#[test]
fn ctrl_f_opens_search_in_logs_but_stays_child_input_in_terminal() {
    let output = output(&[]);
    let ctrl_f = KeyEvent::new(KeyCode::Char('f'), KeyModifiers { control: true, ..none() });
    let mut terminal = LogView::default();
    assert_eq!(
        terminal.handle_key(ctrl_f, false, true, &output),
        LogViewAction::Ignored
    );

    let mut logs = LogView::default();
    assert_eq!(logs.handle_key(ctrl_f, true, false, &output), LogViewAction::Pause);
    assert!(logs.is_editing());
}

#[test]
fn search_paste_filters_controls_and_preserves_utf8_at_the_byte_limit() {
    let output = output(&[]);
    let mut view = LogView::default();
    view.handle_key(key(KeyCode::Char('/')), true, false, &output);

    assert!(matches!(view.paste_search("one\ntwo €", &output), LogViewAction::Changed));
    assert_eq!(
        view.dialog().map(|dialog| dialog.query),
        Some("onetwo €".to_string())
    );
    assert!(matches!(
        view.paste_search(&"x".repeat(SEARCH_QUERY_BYTES), &output),
        LogViewAction::Changed
    ));
    let editor = view.dialog().unwrap().query;
    assert!(editor.len() <= SEARCH_QUERY_BYTES);
    assert!(editor.is_char_boundary(editor.len()));
}

#[test]
fn search_switches_to_logs_and_navigates_literal_matches() {
    let snapshot = output(&["hit", "miss", "hit"]);
    let mut view = LogView::default();

    assert_eq!(
        view.handle_key(key(KeyCode::Char('/')), true, true, &snapshot),
        LogViewAction::Pause
    );
    view.handle_key(key(KeyCode::Char('h')), true, true, &snapshot);
    assert!(
        view.current_match().is_some(),
        "search must highlight and navigate while the query is typed"
    );
    view.handle_key(key(KeyCode::Char('i')), true, true, &snapshot);
    view.handle_key(key(KeyCode::Char('t')), true, true, &snapshot);
    assert!(matches!(
        view.handle_key(key(KeyCode::Enter), true, true, &snapshot),
        LogViewAction::ShowMatch(_)
    ));
    assert_eq!(view.representation(true), OutputRepresentation::Logs);
    assert_eq!(view.status().as_deref(), Some("Search: hit · Match 1 of 2"));
    view.handle_key(key(KeyCode::Enter), true, true, &snapshot);
    assert_eq!(view.status().as_deref(), Some("Search: hit · Match 2 of 2"));
    view.handle_key(
        KeyEvent::new(KeyCode::Enter, KeyModifiers { shift: true, ..none() }),
        true,
        true,
        &snapshot,
    );
    assert_eq!(view.status().as_deref(), Some("Search: hit · Match 1 of 2"));
}

#[test]
fn eviction_clears_a_match_that_no_longer_exists() {
    let mut view = LogView::default();
    let first = output(&["needle"]);
    view.handle_key(key(KeyCode::Char('/')), true, true, &first);
    for character in "needle".chars() {
        view.handle_key(key(KeyCode::Char(character)), true, true, &first);
    }
    view.handle_key(key(KeyCode::Enter), true, true, &first);
    let mut later = output(&["xxxxxxxx"]);
    later.generation = 2;
    assert!(view.refresh(&later));
    assert!(view.current_match().is_none());
    assert!(view.status().unwrap().contains("No matches"));
}

#[test]
fn search_navigation_and_highlight_stay_in_one_process_view() {
    let retained = output(&["one", "two"]);
    let mut logs = ProcessLogs::default();

    assert_eq!(
        logs.handle_key(key(KeyCode::Char('/')), true, false, &retained, 10),
        LogsInput::Changed
    );
    assert_eq!(
        logs.handle_key(key(KeyCode::Char('t')), true, false, &retained, 10),
        LogsInput::Changed
    );
    assert_eq!(
        logs.handle_key(key(KeyCode::Enter), true, false, &retained, 10),
        LogsInput::Changed
    );

    let frame = logs.frame(&retained, 10);
    assert!(frame.status.is_some_and(|status| status.contains("1 of 1")));
    assert!(frame.lines.iter().any(|line| line.highlight.is_some()));
    assert!(!frame.following);
}

#[test]
fn mouse_scroll_updates_the_owned_navigation_state() {
    let names: Vec<String> = (0..20).map(|line| format!("line-{line}")).collect();
    let texts: Vec<&str> = names.iter().map(|name| name.as_str()).collect();
    let retained = output(&texts);
    let mut logs = ProcessLogs::default();
    logs.frame(&retained, 5);

    assert!(logs.handle_mouse(
        MouseEvent {
            kind: MouseEventKind::ScrollUp,
            column: 1,
            row: 1,
            modifiers: none(),
        },
        Rect { x: 0, y: 0, width: 20, height: 5 },
        1,
        &retained,
    ));
    logs.frame(&retained, 5);
    assert!(!logs.following());
}

#[test]
fn a_search_reports_no_more_matches_than_its_limit() {
    let mut retained = output(&["aaaa"]);
    retained.search_limit = 2;
    let search = retained.search("a");
    assert_eq!(search.matches.len(), 2);
    assert!(search.limited);
    assert_eq!((search.matches[1].start, search.matches[1].end), (1, 2));
    assert!(retained.search("").matches.is_empty());
}
