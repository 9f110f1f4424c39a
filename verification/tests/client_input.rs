use minmux::client::{receive_server_message, AppState, InputMode};
use minmux::input::{active_pane_id, active_window_id, handle_key, HELP_TEXT};
use minmux::ipc::{
    ClientMessage, MoveDirection, NavigateDirection, PaneInfo, ServerMessage, SessionInfo, WindowInfo,
};
use minmux::keys::{KeyCode, KeyEvent, ALT, CONTROL, SHIFT};

fn key(c: char) -> KeyEvent {
    KeyEvent::new(KeyCode::Char(c), 0)
}

fn ctrl(c: char) -> KeyEvent {
    KeyEvent::new(KeyCode::Char(c), CONTROL)
}

fn esc() -> KeyEvent {
    KeyEvent::new(KeyCode::Esc, 0)
}

fn session() -> SessionInfo {
    SessionInfo {
        name: "main".to_string(),
        windows: vec![
            WindowInfo {
                id: 2,
                name: "window 1".to_string(),
                panes: vec![PaneInfo { id: 1, name: "pane 1".to_string() }],
                active_pane_id: 1,
            },
            WindowInfo {
                id: 5,
                name: "window 2".to_string(),
                panes: vec![
                    PaneInfo { id: 3, name: "pane 1".to_string() },
                    PaneInfo { id: 4, name: "pane 2".to_string() },
                ],
                active_pane_id: 4,
            },
        ],
        active_window_id: 5,
    }
}

fn attached() -> AppState {
    let mut s = AppState::new();
    s.session = Some(session());
    s
}

#[test]
fn new_state_is_normal_and_empty() {
    let s = AppState::new();
    assert!(s.session.is_none());
    assert_eq!(s.input_mode, InputMode::Normal);
    assert!(s.pending_sequence.is_empty());
    assert!(s.status_message.is_none());
    assert!(!s.should_quit);
    assert!(s.help_text.is_none());
}

#[test]
fn mode_names() {
    assert_eq!(InputMode::Normal.to_string(), "normal");
    assert_eq!(InputMode::Command.to_string(), "command");
    assert_eq!(InputMode::Navigate.to_string(), "navigate");
    assert_eq!(InputMode::Move.to_string(), "move");
}

#[test]
fn active_ids_follow_the_active_window() {
    let s = attached();
    assert_eq!(active_pane_id(&s), Some(4));
    assert_eq!(active_window_id(&s), Some(5));
    let mut t = attached();
    t.session.as_mut().unwrap().active_window_id = 99;
    assert_eq!(active_pane_id(&t), None);
    assert_eq!(active_window_id(&AppState::new()), None);
}

#[test]
fn normal_keys_go_to_the_active_pane() {
    let mut s = attached();
    let (quit, msg) = handle_key(key('x'), &mut s);
    assert!(!quit);
    match msg {
        Some(ClientMessage::SendInput { pane_id, data }) => {
            assert_eq!(pane_id, 4);
            assert_eq!(data, b"x".to_vec());
        }
        other => panic!("unexpected: {other:?}"),
    }
    // Control characters, multi-byte characters and cursor keys.
    match handle_key(ctrl('c'), &mut s).1 {
        Some(ClientMessage::SendInput { data, .. }) => assert_eq!(data, vec![3]),
        other => panic!("unexpected: {other:?}"),
    }
    match handle_key(key('é'), &mut s).1 {
        Some(ClientMessage::SendInput { data, .. }) => assert_eq!(data, "é".as_bytes().to_vec()),
        other => panic!("unexpected: {other:?}"),
    }
    match handle_key(KeyEvent::new(KeyCode::Up, 0), &mut s).1 {
        Some(ClientMessage::SendInput { data, .. }) => assert_eq!(data, b"\x1b[A".to_vec()),
        other => panic!("unexpected: {other:?}"),
    }
    // Keys that send nothing.
    assert!(handle_key(KeyEvent::new(KeyCode::F(1), 0), &mut s).1.is_none());
    // Without a session nothing is sent.
    let mut n = AppState::new();
    assert!(handle_key(key('x'), &mut n).1.is_none());
    assert_eq!(s.input_mode, InputMode::Normal);
}

#[test]
fn ctrl_t_enters_command_mode() {
    let mut s = attached();
    s.status_message = Some("old".to_string());
    let (quit, msg) = handle_key(ctrl('t'), &mut s);
    assert!(!quit);
    assert!(msg.is_none());
    assert_eq!(s.input_mode, InputMode::Command);
    assert!(s.status_message.is_none());
    // ^T with another modifier too is just a key.
    let mut t = attached();
    let msg = handle_key(KeyEvent::new(KeyCode::Char('t'), CONTROL | SHIFT), &mut t).1;
    assert!(matches!(msg, Some(ClientMessage::SendInput { .. })));
    assert_eq!(t.input_mode, InputMode::Normal);
}

#[test]
fn command_mode_keys() {
    let mut s = attached();
    handle_key(ctrl('t'), &mut s);
    assert!(handle_key(key('h'), &mut s).1.is_none());
    assert_eq!(s.help_text.as_deref(), Some(HELP_TEXT));
    assert!(s.pending_sequence.is_empty());
    assert_eq!(s.input_mode, InputMode::Command);

    match handle_key(key('p'), &mut s).1 {
        Some(ClientMessage::CreatePane { window_id, command }) => {
            assert_eq!(window_id, 5);
            assert!(command.is_none());
        }
        other => panic!("unexpected: {other:?}"),
    }
    assert!(matches!(handle_key(key('d'), &mut s).1, Some(ClientMessage::Detach)));

    assert!(handle_key(key('z'), &mut s).1.is_none());
    assert_eq!(s.status_message.as_deref(), Some("unknown command: z"));
    assert!(handle_key(ctrl('x'), &mut s).1.is_none());
    assert_eq!(s.status_message.as_deref(), Some("unknown command: ^X"));
    assert!(handle_key(KeyEvent::new(KeyCode::PageUp, 0), &mut s).1.is_none());
    assert_eq!(s.status_message.as_deref(), Some("unknown command: PageUp"));

    handle_key(key('n'), &mut s);
    assert_eq!(s.input_mode, InputMode::Navigate);
    assert_eq!(s.status_message.as_deref(), Some("navigate mode"));
}

#[test]
fn escape_returns_to_normal_mode() {
    let mut s = attached();
    handle_key(ctrl('t'), &mut s);
    handle_key(key('h'), &mut s);
    assert!(s.help_text.is_some());
    assert!(handle_key(esc(), &mut s).1.is_none());
    assert_eq!(s.input_mode, InputMode::Normal);
    assert!(s.help_text.is_none());
    assert!(s.status_message.is_none());
    assert!(s.pending_sequence.is_empty());
}

#[test]
fn navigate_mode_keys() {
    let mut s = attached();
    handle_key(ctrl('t'), &mut s);
    handle_key(key('n'), &mut s);
    for (c, d) in [
        ('j', NavigateDirection::Down),
        ('k', NavigateDirection::Up),
        ('h', NavigateDirection::Left),
        ('l', NavigateDirection::Right),
    ] {
        match handle_key(key(c), &mut s).1 {
            Some(ClientMessage::Navigate { session_name, direction }) => {
                assert_eq!(session_name, "main");
                assert_eq!(direction, d);
            }
            other => panic!("unexpected: {other:?}"),
        }
    }
    assert!(handle_key(key('q'), &mut s).1.is_none());
    assert_eq!(s.status_message.as_deref(), Some("unknown navigate key: q"));
    assert_eq!(s.input_mode, InputMode::Navigate);
}

#[test]
fn move_mode_keys() {
    let mut s = attached();
    handle_key(ctrl('t'), &mut s);
    handle_key(key('m'), &mut s);
    assert_eq!(s.status_message.as_deref(), Some("move mode"));
    for (c, d) in [
        ('j', MoveDirection::Down),
        ('k', MoveDirection::Up),
        ('h', MoveDirection::Left),
        ('l', MoveDirection::Right),
    ] {
        match handle_key(key(c), &mut s).1 {
            Some(ClientMessage::MovePane { pane_id, direction }) => {
                assert_eq!(pane_id, 4);
                assert_eq!(direction, d);
            }
            other => panic!("unexpected: {other:?}"),
        }
    }
    assert!(handle_key(KeyEvent::new(KeyCode::F(12), ALT), &mut s).1.is_none());
    assert_eq!(s.status_message.as_deref(), Some("unknown move key: F(12)"));
}

#[test]
fn server_messages_update_the_state() {
    let mut s = AppState::new();
    assert!(!receive_server_message(&mut s, ServerMessage::SessionState(session())));
    assert_eq!(s.session.as_ref().unwrap().active_window_id, 5);
    assert!(!receive_server_message(&mut s, ServerMessage::Error { message: "boom".to_string() }));
    assert_eq!(s.status_message.as_deref(), Some("Error: boom"));
    assert!(!receive_server_message(&mut s, ServerMessage::PaneOutput { pane_id: 1, data: vec![1] }));
    assert!(!s.should_quit);
    assert!(receive_server_message(&mut s, ServerMessage::Detached));
    assert!(s.should_quit);
}
