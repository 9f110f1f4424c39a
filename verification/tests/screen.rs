use minmux::client::{AppState, InputMode};
use minmux::input::handle_key;
use minmux::ipc::{PaneInfo, SessionInfo, WindowInfo};
use minmux::keys::{KeyCode, KeyEvent, CONTROL};
use minmux::ui::{can_draw, draw, status_bar, Constraint, Content, Rect, SpanStyle};

fn area(height: u16) -> Rect {
    Rect { x: 0, y: 0, width: 80, height }
}

fn session() -> SessionInfo {
    SessionInfo {
        name: "main".to_string(),
        windows: vec![
            WindowInfo {
                id: 2,
                name: "window 1".to_string(),
                panes: vec![PaneInfo { id: 1, name: "pane 1".to_string() }],
                active_pane_id: 1,
            },
            WindowInfo {
                id: 5,
                name: "window 2".to_string(),
                panes: vec![
                    PaneInfo { id: 3, name: "pane 1".to_string() },
                    PaneInfo { id: 4, name: "pane 2".to_string() },
                    PaneInfo { id: 6, name: "pane 3".to_string() },
                ],
                active_pane_id: 4,
            },
        ],
        active_window_id: 5,
    }
}

fn spans(state: &AppState) -> Vec<(String, SpanStyle)> {
    status_bar(state).into_iter().map(|s| (s.text, s.style)).collect()
}

#[test]
fn connecting_screen() {
    let s = AppState::new();
    let screen = draw(&s, area(21));
    match screen.content {
        Content::Connecting(t) => assert_eq!(t, "Connecting…"),
        _ => panic!("expected the connecting text"),
    }
    assert_eq!(spans(&s), vec![("[normal]".to_string(), SpanStyle::Mode)]);
}

#[test]
fn window_layout_divides_the_height() {
    let mut s = AppState::new();
    s.session = Some(session());
    assert!(can_draw(&s));
    match draw(&s, area(21)).content {
        Content::Window { constraints, panes, areas } => {
            assert_eq!(constraints, vec![Constraint::Length(6), Constraint::Length(6), Constraint::Min(1)]);
            let rows: Vec<_> = areas.iter().map(|r| (r.y, r.height)).collect();
            assert_eq!(rows, vec![(0, 6), (6, 6), (12, 8)]);
            let titles: Vec<_> = panes.iter().map(|p| p.title.clone()).collect();
            assert_eq!(titles, vec!["pane 1", "pane 2", "pane 3"]);
            let active: Vec<_> = panes.iter().map(|p| p.active).collect();
            assert_eq!(active, vec![false, true, false]);
            assert_eq!(panes[1].text, "(active)");
            assert_eq!(panes[0].text, "");
        }
        _ => panic!("expected the window"),
    }
}

#[test]
fn missing_active_window_draws_nothing() {
    let mut s = AppState::new();
    let mut info = session();
    info.active_window_id = 42;
    s.session = Some(info);
    assert!(matches!(draw(&s, area(21)).content, Content::Empty));
}

#[test]
fn help_replaces_the_window() {
    let mut s = AppState::new();
    s.session = Some(session());
    s.help_text = Some("help!".to_string());
    match draw(&s, area(21)).content {
        Content::Help(t) => assert_eq!(t, "help!"),
        _ => panic!("expected the help"),
    }
}

#[test]
fn status_bar_lists_session_windows_mode_keys_and_message() {
    let mut s = AppState::new();
    s.session = Some(session());
    handle_key(KeyEvent::new(KeyCode::Char('t'), CONTROL), &mut s);
    s.pending_sequence.push(KeyEvent::new(KeyCode::Char('x'), CONTROL));
    s.pending_sequence.push(KeyEvent::new(KeyCode::Esc, 0));
    s.pending_sequence.push(KeyEvent::new(KeyCode::Char('q'), 0));
    s.status_message = Some("hello".to_string());
    assert_eq!(s.input_mode, InputMode::Command);
    assert_eq!(
        spans(&s),
        vec![
            (" main ".to_string(), SpanStyle::SessionName),
            (" ".to_string(), SpanStyle::Plain),
            (" window 1 ".to_string(), SpanStyle::InactiveWindow),
            (" window 2 ".to_string(), SpanStyle::ActiveWindow),
            (" ".to_string(), SpanStyle::Plain),
            ("[command]".to_string(), SpanStyle::Mode),
            (" ^X <Esc> q".to_string(), SpanStyle::Plain),
            ("  hello".to_string(), SpanStyle::Message),
        ]
    );
}

#[test]
fn empty_window_gets_one_row() {
    let mut s = AppState::new();
    let mut info = session();
    info.windows[1].panes.clear();
    s.session = Some(info);
    match draw(&s, area(8)).content {
        Content::Window { constraints, panes, areas } => {
            assert_eq!(constraints, vec![Constraint::Min(1)]);
            assert_eq!(areas, vec![Rect { x: 0, y: 0, width: 80, height: 7 }]);
            assert!(panes.is_empty());
        }
        _ => panic!("expected the window"),
    }
}

#[test]
fn status_bar_takes_the_bottom_row() {
    let s = AppState::new();
    let screen = draw(&s, Rect { x: 0, y: 0, width: 40, height: 10 });
    assert_eq!(screen.content_area, Rect { x: 0, y: 0, width: 40, height: 9 });
    assert_eq!(screen.status_area, Rect { x: 0, y: 9, width: 40, height: 1 });
}
